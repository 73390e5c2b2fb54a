//! Display correlation.
//!
//! Two window-manager queries feed this module: a "snap to nearest" query
//! that always names a monitor for a live window, and a strict "null on
//! miss" query that names a monitor only when a single one claims the
//! window. The miss of the second query is the sole multi-monitor signal.
//! The nearest monitor's identity is the device name read from its extended
//! monitor information, a NUL-terminated UTF-16 buffer.

use crate::error::WindowError;
use crate::wstr::{len_to_nul, utf16_decode, utf16_nul_to_string};
use vstd::prelude::*;

verus! {

/// Interprets the snap-to-nearest monitor query, which names a monitor for
/// every live window: an invalid result means the window handle itself went
/// stale, a recoverable failure for the monitor fields alone.
pub fn hwnd_to_monitor(nearest_is_invalid: bool) -> (r: Result<(), WindowError>)
    ensures
        nearest_is_invalid ==> r == Err::<(), WindowError>(WindowError::InvalidHandle),
        !nearest_is_invalid ==> r == Ok::<(), WindowError>(()),
{
    if nearest_is_invalid {
        return Err(WindowError::InvalidHandle);
    }
    Ok(())
}

/// Whether the window spans more than one monitor: exactly when the strict
/// monitor query missed, i.e. no single monitor uniquely claims the window.
pub fn intersects_with_multiple_monitors(exact_monitor_hit: bool) -> (r: bool)
    ensures
        r == !exact_monitor_hit,
{
    !exact_monitor_hit
}

/// The stable device identifier of a monitor, decoded from the device-name
/// field of its extended monitor information. A failed information query
/// leaves the identifier unavailable.
pub fn get_monitor_id(info_ok: bool, sz_device: &[u16]) -> (r: Result<String, WindowError>)
    ensures
        !info_ok ==> r == Err::<String, WindowError>(WindowError::ResourceUnavailable),
        info_ok ==> r is Ok && r->Ok_0@ == utf16_decode(sz_device@.take(len_to_nul(sz_device@))),
{
    if !info_ok {
        return Err(WindowError::ResourceUnavailable);
    }
    Ok(utf16_nul_to_string(sz_device))
}

} // verus!
