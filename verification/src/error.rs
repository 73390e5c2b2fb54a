use vstd::prelude::*;

verus! {

/// Why the eligibility filter rejected a window's owning executable.
#[derive(Clone, Copy, Debug, PartialEq, Eq, Structural)]
pub enum ExcludeReason {
    /// The executable is one of the fixed OS-internal process names.
    SystemProcess,
    /// The executable is the capturing application's own binary.
    SelfProcess,
    /// Game-capture mode only: the executable is on the configured blacklist.
    Blacklisted,
}

/// Failure taxonomy of the metadata pipeline.
///
/// Failures in optional metadata fields are swallowed at the field level by
/// the caller; failures in identity resolution or filtering abort the whole
/// aggregation for that window. None of these is fatal to the caller.
#[derive(Clone, Copy, Debug, PartialEq, Eq, Structural)]
pub enum WindowError {
    /// The window handle no longer names a live window.
    InvalidHandle,
    /// The owning process could not be opened with the required rights.
    AccessDenied,
    /// A queried resource (module name, version entry, window text) is absent.
    ResourceUnavailable,
    /// The operating system returned lengths or pointers that do not fit
    /// together; the response is not interpreted any further.
    InconsistentOsResponse,
    /// The eligibility filter rejected the window; not a true failure.
    Excluded(ExcludeReason),
}

} // verus!
