use vstd::prelude::*;

verus! {

/// Every failure condition the tool can surface. Any of these aborts the
/// whole reconfiguration run; no component performs local recovery.
#[derive(Clone, Copy, PartialEq, Eq, Structural, Debug)]
pub enum Error {
    /// No attached device matched the requested mode's table.
    NotFound,
    /// More than one attached device matched; the tool refuses to guess.
    AmbiguousMatch,
    /// A stall or protocol-level USB failure.
    TransferFailure,
    /// No response within the call's timeout.
    TimedOut,
    /// A response shorter than the protocol requires.
    InvalidData,
    /// Application firmware below the minimum supported version.
    UnsupportedFirmware,
    /// A configuration write was attempted with a wrong-sized image.
    InvalidConfigurationLength,
}

} // verus!
