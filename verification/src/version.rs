//! Version-resource interpretation.
//!
//! The product name of an executable sits in its embedded version resource
//! under a structured key built from the system language id and a fixed
//! Unicode code-page identifier. The operating system query returns a pointer
//! into the previously allocated buffer together with a length in code units;
//! that length is validated against the buffer before the value is decoded,
//! so a corrupt offset is surfaced as a failure instead of being read.

use crate::error::WindowError;
use crate::wstr::{hex4_chars, utf16_decode, utf16_range_to_string, u16_to_hex4};
use vstd::prelude::*;
use vstd::string::StringExecFns;

verus! {

/// The version-resource query key selecting the product name: the string
/// table is named by the language id and the Unicode code-page id, each as
/// four zero-padded hexadecimal digits.
pub open spec fn spec_query_key(lang_id: u16) -> Seq<char> {
    "\\StringFileInfo\\"@ + hex4_chars(lang_id as int) + "04B0\\ProductName"@
}

/// Builds the lookup key for the product-name entry of a version resource.
pub fn version_query_key(lang_id: u16) -> (r: String)
    ensures
        r@ == spec_query_key(lang_id),
{
    let mut out = String::from_str("\\StringFileInfo\\");
    let hex = u16_to_hex4(lang_id);
    out.append(hex.as_str());
    out.append("04B0\\ProductName");
    out
}

/// Whether a value block reported by the version query may be read: the
/// pointer must not be null, the value must not be empty, and its length in
/// code units must fit inside the buffer the query was made on.
pub fn version_value_fits(value_is_null: bool, value_len_units: u32, buffer_size_bytes: u32) -> (r:
    bool)
    ensures
        r == (!value_is_null && 1 <= value_len_units && value_len_units <= buffer_size_bytes / 2),
{
    !value_is_null && 1 <= value_len_units && value_len_units <= buffer_size_bytes / 2
}

/// Decodes a validated product-name value: everything but the trailing
/// terminator code unit. An empty value is an inconsistent response, never a
/// readable name.
pub fn get_product_name(value_units: &[u16]) -> (r: Result<String, WindowError>)
    ensures
        value_units@.len() == 0 ==> r == Err::<String, WindowError>(
            WindowError::InconsistentOsResponse,
        ),
        value_units@.len() > 0 ==> r is Ok && r->Ok_0@ == utf16_decode(
            value_units@.take(value_units@.len() - 1),
        ),
{
    let n = value_units.len();
    if n == 0 {
        return Err(WindowError::InconsistentOsResponse);
    }
    let r = utf16_range_to_string(value_units, 0, n - 1);
    proof {
        assert(value_units@.subrange(0, n - 1) =~= value_units@.take(value_units@.len() - 1));
    }
    Ok(r)
}

} // verus!
