use vstd::prelude::*;
use crate::errors::Error;

verus! {

/// Application firmware older than this cannot be rebooted into bootloader
/// mode by this tool.
pub const MINIMUM_FIRMWARE_VERSION: u32 = 0x03000008;

/// Where the locate workflow stands: bootloader mode is tried first, then
/// the application-mode path with its version gate, reboot, fixed grace
/// wait and a single bootloader retry.
#[derive(Clone, Copy, PartialEq, Eq, Structural, Debug)]
pub enum LocateState {
    /// First attempt to resolve a bootloader-mode device.
    TryDfu,
    /// Bootloader resolution failed; resolve an application-mode device.
    TryApplication,
    /// Application device found; its firmware version is being queried.
    CheckVersion,
    /// Version accepted; the reboot command is being sent.
    SendReboot,
    /// Reboot sent; waiting the fixed grace period for re-enumeration.
    AwaitReenumeration,
    /// Grace period over; the single bootloader retry.
    RetryDfu,
    /// A bootloader-mode session is at hand.
    Ready,
    Failed,
}

/// What the driver reports back after performing the requested action.
#[derive(Clone, Copy, PartialEq, Eq, Structural, Debug)]
pub enum LocateEvent {
    /// The requested device resolution produced a session.
    Resolved,
    /// The requested device resolution failed with this error.
    ResolveFailed(Error),
    /// The firmware version query returned this version.
    Version(u32),
    /// The firmware version query failed with this error.
    VersionQueryFailed(Error),
    /// The reboot command was accepted by the device.
    RebootSent,
    /// The reboot command failed with this error.
    RebootFailed(Error),
    /// The fixed grace period has elapsed.
    Waited,
}

/// What the driver must do next.
#[derive(Clone, Copy, PartialEq, Eq, Structural, Debug)]
pub enum LocateAction {
    /// Enumerate and resolve a bootloader-mode device.
    ResolveDfuDevice,
    /// Enumerate and resolve an application-mode device, verify its
    /// endpoints and claim its interface.
    ResolveApplicationDevice,
    /// Query the application firmware's version.
    QueryFirmwareVersion,
    /// Send the reboot-to-bootloader command, ending the application
    /// session.
    DoReboot,
    /// Sleep the fixed 1-second grace period for re-enumeration.
    WaitForReenumeration,
    /// Locate is done: continue with the bootloader session at hand.
    Proceed,
    /// Locate failed for good with this error.
    Abort(Error),
}

/// The transition table of the locate workflow. A version below the
/// minimum aborts with `UnsupportedFirmware` before any reboot is sent;
/// an acceptable version leads to exactly one reboot, one fixed wait and
/// one bootloader retry, whose failure is final. An event that the state
/// cannot produce aborts with `InvalidData`.
pub open spec fn locate_transition(state: LocateState, event: LocateEvent) -> (
    LocateState,
    LocateAction,
) {
    match (state, event) {
        (LocateState::TryDfu, LocateEvent::Resolved) => (
            LocateState::Ready,
            LocateAction::Proceed,
        ),
        (LocateState::TryDfu, LocateEvent::ResolveFailed(_)) => (
            LocateState::TryApplication,
            LocateAction::ResolveApplicationDevice,
        ),
        (LocateState::TryApplication, LocateEvent::Resolved) => (
            LocateState::CheckVersion,
            LocateAction::QueryFirmwareVersion,
        ),
        (LocateState::TryApplication, LocateEvent::ResolveFailed(e)) => (
            LocateState::Failed,
            LocateAction::Abort(e),
        ),
        (LocateState::CheckVersion, LocateEvent::Version(v)) => if v < MINIMUM_FIRMWARE_VERSION {
            (LocateState::Failed, LocateAction::Abort(Error::UnsupportedFirmware))
        } else {
            (LocateState::SendReboot, LocateAction::DoReboot)
        },
        (LocateState::CheckVersion, LocateEvent::VersionQueryFailed(e)) => (
            LocateState::Failed,
            LocateAction::Abort(e),
        ),
        (LocateState::SendReboot, LocateEvent::RebootSent) => (
            LocateState::AwaitReenumeration,
            LocateAction::WaitForReenumeration,
        ),
        (LocateState::SendReboot, LocateEvent::RebootFailed(e)) => (
            LocateState::Failed,
            LocateAction::Abort(e),
        ),
        (LocateState::AwaitReenumeration, LocateEvent::Waited) => (
            LocateState::RetryDfu,
            LocateAction::ResolveDfuDevice,
        ),
        (LocateState::RetryDfu, LocateEvent::Resolved) => (
            LocateState::Ready,
            LocateAction::Proceed,
        ),
        (LocateState::RetryDfu, LocateEvent::ResolveFailed(e)) => (
            LocateState::Failed,
            LocateAction::Abort(e),
        ),
        _ => (LocateState::Failed, LocateAction::Abort(Error::InvalidData)),
    }
}

/// The locate workflow begins by trying bootloader mode, which covers a
/// device left mid-update.
pub fn locate_start() -> (r: (LocateState, LocateAction))
    ensures
        r.0 is TryDfu,
        r.1 is ResolveDfuDevice,
{
    (LocateState::TryDfu, LocateAction::ResolveDfuDevice)
}

/// One step of the locate workflow: from the current state and the event
/// the driver reports, the next state and the action to perform.
pub fn locate_step(state: LocateState, event: &LocateEvent) -> (r: (LocateState, LocateAction))
    requires
        !(state is Ready),
        !(state is Failed),
    ensures
        r == locate_transition(state, *event),
{
    match (state, *event) {
        (LocateState::TryDfu, LocateEvent::Resolved) => (
            LocateState::Ready,
            LocateAction::Proceed,
        ),
        (LocateState::TryDfu, LocateEvent::ResolveFailed(_)) => (
            LocateState::TryApplication,
            LocateAction::ResolveApplicationDevice,
        ),
        (LocateState::TryApplication, LocateEvent::Resolved) => (
            LocateState::CheckVersion,
            LocateAction::QueryFirmwareVersion,
        ),
        (LocateState::TryApplication, LocateEvent::ResolveFailed(e)) => (
            LocateState::Failed,
            LocateAction::Abort(e),
        ),
        (LocateState::CheckVersion, LocateEvent::Version(v)) => if v < MINIMUM_FIRMWARE_VERSION {
            (LocateState::Failed, LocateAction::Abort(Error::UnsupportedFirmware))
        } else {
            (LocateState::SendReboot, LocateAction::DoReboot)
        },
        (LocateState::CheckVersion, LocateEvent::VersionQueryFailed(e)) => (
            LocateState::Failed,
            LocateAction::Abort(e),
        ),
        (LocateState::SendReboot, LocateEvent::RebootSent) => (
            LocateState::AwaitReenumeration,
            LocateAction::WaitForReenumeration,
        ),
        (LocateState::SendReboot, LocateEvent::RebootFailed(e)) => (
            LocateState::Failed,
            LocateAction::Abort(e),
        ),
        (LocateState::AwaitReenumeration, LocateEvent::Waited) => (
            LocateState::RetryDfu,
            LocateAction::ResolveDfuDevice,
        ),
        (LocateState::RetryDfu, LocateEvent::Resolved) => (
            LocateState::Ready,
            LocateAction::Proceed,
        ),
        (LocateState::RetryDfu, LocateEvent::ResolveFailed(e)) => (
            LocateState::Failed,
            LocateAction::Abort(e),
        ),
        _ => (LocateState::Failed, LocateAction::Abort(Error::InvalidData)),
    }
}

/// A below-minimum firmware version always aborts the locate workflow with
/// `UnsupportedFirmware`, and never reaches the reboot: no partial action
/// is taken on a device the tool cannot support.
pub proof fn lemma_version_gate(state: LocateState, v: u32)
    requires
        state is CheckVersion,
        v < MINIMUM_FIRMWARE_VERSION,
    ensures
        locate_transition(state, LocateEvent::Version(v)).0 is Failed,
        locate_transition(state, LocateEvent::Version(v)).1 == LocateAction::Abort(
            Error::UnsupportedFirmware,
        ),
{
}

/// An accepted firmware version always proceeds to exactly the reboot
/// action, never to failure and never straight to a bootloader session.
pub proof fn lemma_version_accepted(state: LocateState, v: u32)
    requires
        state is CheckVersion,
        v >= MINIMUM_FIRMWARE_VERSION,
    ensures
        locate_transition(state, LocateEvent::Version(v)).0 is SendReboot,
        locate_transition(state, LocateEvent::Version(v)).1 is DoReboot,
{
}

} // verus!
