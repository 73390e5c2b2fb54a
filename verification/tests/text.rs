use winfo::error::WindowError;
use winfo::monitor::{get_monitor_id, hwnd_to_monitor, intersects_with_multiple_monitors};
use winfo::version::{get_product_name, version_query_key, version_value_fits};
use winfo::wstr::{u16_to_hex4, utf16_from_bytes_le, utf16_nul_to_string, utf16_to_string};

fn units_of(s: &str) -> Vec<u16> {
    s.encode_utf16().collect()
}

#[test]
fn decode_plain_text() {
    assert_eq!(utf16_to_string(&units_of("notepad.exe")), "notepad.exe");
    assert_eq!(utf16_to_string(&[]), "");
}

#[test]
fn decode_surrogate_pair() {
    // U+1D11E (musical G clef) encodes as the pair D834 DD1E.
    assert_eq!(utf16_to_string(&[0xD834, 0xDD1E]), "\u{1D11E}");
    assert_eq!(utf16_to_string(&units_of("a\u{1D11E}b")), "a\u{1D11E}b");
}

#[test]
fn decode_lone_surrogates_lossily() {
    assert_eq!(utf16_to_string(&[0xD800]), "\u{FFFD}");
    assert_eq!(utf16_to_string(&[0xDD1E, 0x41]), "\u{FFFD}A");
    // A high surrogate not followed by a low one is replaced on its own.
    assert_eq!(utf16_to_string(&[0xD834, 0x41]), "\u{FFFD}A");
}

#[test]
fn decode_stops_at_nul() {
    assert_eq!(utf16_nul_to_string(&[0x41, 0x42, 0, 0x43, 0]), "AB");
    assert_eq!(utf16_nul_to_string(&[0, 0x41]), "");
    assert_eq!(utf16_nul_to_string(&[0x41, 0x42]), "AB");
}

#[test]
fn units_from_little_endian_bytes() {
    assert_eq!(utf16_from_bytes_le(&[0x41, 0x00, 0x34, 0xD8]), vec![0x41, 0xD834]);
    // A trailing odd byte carries no unit.
    assert_eq!(utf16_from_bytes_le(&[0x41, 0x00, 0x99]), vec![0x41]);
    assert_eq!(utf16_from_bytes_le(&[]), Vec::<u16>::new());
}

#[test]
fn hex_rendering_is_zero_padded() {
    assert_eq!(u16_to_hex4(0), "0000");
    assert_eq!(u16_to_hex4(0x0409), "0409");
    assert_eq!(u16_to_hex4(0x04B0), "04B0");
    assert_eq!(u16_to_hex4(0xFFFF), "FFFF");
    assert_eq!(u16_to_hex4(0x0C1A), "0C1A");
}

#[test]
fn query_key_for_english_lang_id() {
    // 0x0409 is the en-US language id; the string table is keyed by the
    // language id and code page as eight hex digits together.
    assert_eq!(version_query_key(0x0409), "\\StringFileInfo\\040904B0\\ProductName");
    assert_eq!(version_query_key(0x0407), "\\StringFileInfo\\040704B0\\ProductName");
    assert_eq!(version_query_key(0), "\\StringFileInfo\\000004B0\\ProductName");
}

#[test]
fn version_value_validation() {
    assert!(version_value_fits(false, 5, 10));
    assert!(!version_value_fits(false, 6, 10));
    assert!(!version_value_fits(true, 5, 100));
    assert!(!version_value_fits(false, 0, 100));
    // An odd buffer size holds only size / 2 whole code units.
    assert!(version_value_fits(false, 5, 11));
    assert!(!version_value_fits(false, 6, 11));
}

#[test]
fn product_name_trims_terminator() {
    let mut units = units_of("My Product");
    units.push(0);
    assert_eq!(get_product_name(&units).unwrap(), "My Product");
    assert_eq!(get_product_name(&[]), Err(WindowError::InconsistentOsResponse));
    // A value of one bare terminator decodes as the empty name.
    assert_eq!(get_product_name(&[0]).unwrap(), "");
}

#[test]
fn multi_monitor_signal_is_the_miss() {
    // A single monitor uniquely claims the window: no spanning.
    assert!(!intersects_with_multiple_monitors(true));
    // The strict query missed: the window straddles displays.
    assert!(intersects_with_multiple_monitors(false));
}

#[test]
fn nearest_monitor_decision() {
    // The snap-to-nearest query fails only for a stale window handle.
    assert_eq!(hwnd_to_monitor(false), Ok(()));
    assert_eq!(hwnd_to_monitor(true), Err(WindowError::InvalidHandle));
}

#[test]
fn monitor_id_from_device_name() {
    let mut device = units_of("\\\\.\\DISPLAY1");
    device.push(0);
    device.push(0x7F);
    assert_eq!(get_monitor_id(true, &device).unwrap(), "\\\\.\\DISPLAY1");
    assert_eq!(get_monitor_id(false, &device), Err(WindowError::ResourceUnavailable));
}
