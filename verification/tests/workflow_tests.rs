use xds110_config::errors::Error;
use xds110_config::workflow::{
    locate_start, locate_step, LocateAction, LocateEvent, LocateState, MINIMUM_FIRMWARE_VERSION,
};

#[test]
fn bootloader_mode_is_tried_first() {
    let (state, action) = locate_start();
    assert_eq!(state, LocateState::TryDfu);
    assert_eq!(action, LocateAction::ResolveDfuDevice);
    let (state, action) = locate_step(state, &LocateEvent::Resolved);
    assert_eq!(state, LocateState::Ready);
    assert_eq!(action, LocateAction::Proceed);
}

#[test]
fn old_firmware_aborts_before_any_reboot() {
    let (state, _) = locate_step(LocateState::TryDfu, &LocateEvent::ResolveFailed(Error::NotFound));
    assert_eq!(state, LocateState::TryApplication);
    let (state, action) = locate_step(state, &LocateEvent::Resolved);
    assert_eq!(state, LocateState::CheckVersion);
    assert_eq!(action, LocateAction::QueryFirmwareVersion);
    let (state, action) = locate_step(state, &LocateEvent::Version(0x03000007));
    assert_eq!(state, LocateState::Failed);
    assert_eq!(action, LocateAction::Abort(Error::UnsupportedFirmware));
}

#[test]
fn minimum_firmware_reboots_waits_and_retries_once() {
    assert_eq!(MINIMUM_FIRMWARE_VERSION, 0x03000008);
    let (state, action) = locate_step(LocateState::CheckVersion, &LocateEvent::Version(0x03000008));
    assert_eq!(state, LocateState::SendReboot);
    assert_eq!(action, LocateAction::DoReboot);
    let (state, action) = locate_step(state, &LocateEvent::RebootSent);
    assert_eq!(state, LocateState::AwaitReenumeration);
    assert_eq!(action, LocateAction::WaitForReenumeration);
    let (state, action) = locate_step(state, &LocateEvent::Waited);
    assert_eq!(state, LocateState::RetryDfu);
    assert_eq!(action, LocateAction::ResolveDfuDevice);
    let (state, action) = locate_step(state, &LocateEvent::Resolved);
    assert_eq!(state, LocateState::Ready);
    assert_eq!(action, LocateAction::Proceed);
}

#[test]
fn second_bootloader_failure_is_final() {
    let (state, action) = locate_step(
        LocateState::RetryDfu,
        &LocateEvent::ResolveFailed(Error::AmbiguousMatch),
    );
    assert_eq!(state, LocateState::Failed);
    assert_eq!(action, LocateAction::Abort(Error::AmbiguousMatch));
}

#[test]
fn no_device_at_all_is_final() {
    let (state, action) = locate_step(
        LocateState::TryApplication,
        &LocateEvent::ResolveFailed(Error::NotFound),
    );
    assert_eq!(state, LocateState::Failed);
    assert_eq!(action, LocateAction::Abort(Error::NotFound));
}
