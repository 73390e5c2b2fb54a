//! UTF-16 text handling.
//!
//! Every textual value the operating system hands back (window title and
//! class, module path, monitor device name, version-resource entries, the
//! command line read out of a foreign process) arrives as a buffer of UTF-16
//! code units. This module decodes such buffers, replacing unpaired
//! surrogates with U+FFFD, and renders the four-hex-digit numbers that key a
//! version-resource string table.

use vstd::prelude::*;
use vstd::utf8::is_scalar;

verus! {

/// A UTF-16 high (leading) surrogate code unit.
pub open spec fn is_high_surrogate(u: u16) -> bool {
    0xD800 <= u <= 0xDBFF
}

/// A UTF-16 low (trailing) surrogate code unit.
pub open spec fn is_low_surrogate(u: u16) -> bool {
    0xDC00 <= u <= 0xDFFF
}

/// The Unicode scalar value encoded by a surrogate pair.
pub open spec fn combined_scalar(hi: u16, lo: u16) -> u32 {
    (0x10000 + (hi - 0xD800) * 0x400 + (lo - 0xDC00)) as u32
}

/// Lossy UTF-16 decoding: a surrogate pair becomes one supplementary-plane
/// character, an unpaired surrogate becomes U+FFFD, and every other code
/// unit stands for itself.
pub open spec fn utf16_decode(units: Seq<u16>) -> Seq<char>
    decreases units.len(),
{
    if units.len() == 0 {
        Seq::empty()
    } else if is_high_surrogate(units[0]) && units.len() >= 2 && is_low_surrogate(units[1]) {
        seq![combined_scalar(units[0], units[1]) as char] + utf16_decode(units.skip(2))
    } else if is_high_surrogate(units[0]) || is_low_surrogate(units[0]) {
        seq!['\u{FFFD}'] + utf16_decode(units.skip(1))
    } else {
        seq![(units[0] as u32) as char] + utf16_decode(units.skip(1))
    }
}

/// Law: the decoder inserts no NUL of its own — when no code unit of the
/// input is zero, no character of the decoded text is NUL. A
/// length-prefixed string read in full therefore carries no embedded
/// terminator into the result.
pub proof fn lemma_decode_no_embedded_nul(units: Seq<u16>)
    requires
        forall|j: int| 0 <= j < units.len() ==> units[j] != 0,
    ensures
        forall|k: int|
            0 <= k < utf16_decode(units).len() ==> utf16_decode(units)[k] != '\u{0}',
    decreases units.len(),
{
    broadcast use vstd::utf8::char_u32_cast;

    if units.len() == 0 {
    } else {
        let d = utf16_decode(units);
        if is_high_surrogate(units[0]) && units.len() >= 2 && is_low_surrogate(units[1]) {
            let v = combined_scalar(units[0], units[1]);
            assert(v >= 0x10000);
            assert((v as char) != '\u{0}') by {
                if (v as char) == '\u{0}' {
                    assert(('\u{0}' as u32) == 0);
                }
            }
            assert forall|j: int| 0 <= j < units.skip(2).len() implies units.skip(2)[j] != 0 by {
                assert(units.skip(2)[j] == units[j + 2]);
            }
            lemma_decode_no_embedded_nul(units.skip(2));
            assert forall|k: int| 0 <= k < d.len() implies d[k] != '\u{0}' by {
                if k > 0 {
                    assert(d[k] == utf16_decode(units.skip(2))[k - 1]);
                }
            }
        } else {
            let c = if is_high_surrogate(units[0]) || is_low_surrogate(units[0]) {
                '\u{FFFD}'
            } else {
                (units[0] as u32) as char
            };
            assert(c != '\u{0}') by {
                if c == '\u{0}' {
                    assert(('\u{0}' as u32) == 0);
                    assert(('\u{FFFD}' as u32) == 0xFFFD);
                }
            }
            assert forall|j: int| 0 <= j < units.skip(1).len() implies units.skip(1)[j] != 0 by {
                assert(units.skip(1)[j] == units[j + 1]);
            }
            lemma_decode_no_embedded_nul(units.skip(1));
            assert forall|k: int| 0 <= k < d.len() implies d[k] != '\u{0}' by {
                if k > 0 {
                    assert(d[k] == utf16_decode(units.skip(1))[k - 1]);
                }
            }
        }
    }
}

/// Relies on char::from_u32 of std: for a Unicode scalar value it returns
/// exactly the character with that value.
#[verifier::external_body]
fn char_from_scalar(v: u32) -> (c: char)
    requires
        is_scalar(v),
    ensures
        c == (v as char),
{
    char::from_u32(v).unwrap()
}

/// Relies on String::push of std: it appends exactly one character.
#[verifier::external_body]
fn push_char(s: &mut String, c: char)
    ensures
        final(s)@ == old(s)@.push(c),
{
    s.push(c);
}

/// Decodes the code units at indexes `from..to`, lossily.
pub fn utf16_range_to_string(units: &[u16], from: usize, to: usize) -> (r: String)
    requires
        from <= to <= units@.len(),
    ensures
        r@ == utf16_decode(units@.subrange(from as int, to as int)),
{
    let mut out = String::new();
    let mut i: usize = from;
    while i < to
        invariant
            from <= i <= to <= units@.len(),
            out@ + utf16_decode(units@.subrange(i as int, to as int)) == utf16_decode(
                units@.subrange(from as int, to as int),
            ),
        decreases to - i,
    {
        let u = units[i];
        let ghost cur = units@.subrange(i as int, to as int);
        proof {
            assert(cur[0] == units@[i as int]);
        }
        if 0xD800 <= u && u <= 0xDBFF && i + 1 < to && 0xDC00 <= units[i + 1] && units[i + 1]
            <= 0xDFFF {
            let lo = units[i + 1];
            let v: u32 = 0x10000 + ((u - 0xD800) as u32) * 0x400 + ((lo - 0xDC00) as u32);
            let c = char_from_scalar(v);
            proof {
                assert(cur[1] == units@[i + 1]);
                assert(v == combined_scalar(u, lo));
                assert(cur.skip(2) =~= units@.subrange(i + 2, to as int));
                assert(utf16_decode(cur) == seq![c] + utf16_decode(cur.skip(2)));
                assert(out@.push(c) + utf16_decode(units@.subrange(i + 2, to as int)) =~= out@ + (
                seq![c] + utf16_decode(units@.subrange(i + 2, to as int))));
            }
            push_char(&mut out, c);
            i = i + 2;
        } else if 0xD800 <= u && u <= 0xDFFF {
            let c = '\u{FFFD}';
            proof {
                assert(cur.skip(1) =~= units@.subrange(i + 1, to as int));
                assert(utf16_decode(cur) == seq![c] + utf16_decode(cur.skip(1)));
                assert(out@.push(c) + utf16_decode(units@.subrange(i + 1, to as int)) =~= out@ + (
                seq![c] + utf16_decode(units@.subrange(i + 1, to as int))));
            }
            push_char(&mut out, c);
            i = i + 1;
        } else {
            let c = char_from_scalar(u as u32);
            proof {
                assert(cur.skip(1) =~= units@.subrange(i + 1, to as int));
                assert(utf16_decode(cur) == seq![c] + utf16_decode(cur.skip(1)));
                assert(out@.push(c) + utf16_decode(units@.subrange(i + 1, to as int)) =~= out@ + (
                seq![c] + utf16_decode(units@.subrange(i + 1, to as int))));
            }
            push_char(&mut out, c);
            i = i + 1;
        }
    }
    proof {
        assert(units@.subrange(to as int, to as int) =~= Seq::<u16>::empty());
        assert(out@ + Seq::<char>::empty() =~= out@);
    }
    out
}

/// Decodes a whole buffer of UTF-16 code units, lossily.
pub fn utf16_to_string(units: &[u16]) -> (r: String)
    ensures
        r@ == utf16_decode(units@),
{
    let n = units.len();
    let r = utf16_range_to_string(units, 0, n);
    proof {
        assert(units@.subrange(0, n as int) =~= units@);
    }
    r
}

/// The number of code units before the first NUL terminator, or the whole
/// length when no NUL occurs.
pub open spec fn len_to_nul(units: Seq<u16>) -> int
    decreases units.len(),
{
    if units.len() == 0 {
        0
    } else if units[0] == 0 {
        0
    } else {
        1 + len_to_nul(units.skip(1))
    }
}

proof fn lemma_len_to_nul(units: Seq<u16>, i: int)
    requires
        0 <= i <= units.len(),
        forall|j: int| 0 <= j < i ==> units[j] != 0,
        i == units.len() || units[i] == 0,
    ensures
        len_to_nul(units) == i,
    decreases i,
{
    if i == 0 {
    } else {
        assert(units[0] != 0);
        assert forall|j: int| 0 <= j < i - 1 implies units.skip(1)[j] != 0 by {
            assert(units.skip(1)[j] == units[j + 1]);
        }
        if i < units.len() {
            assert(units.skip(1)[i - 1] == units[i]);
        }
        lemma_len_to_nul(units.skip(1), i - 1);
    }
}

/// Decodes a NUL-terminated buffer of UTF-16 code units, as the fixed-size
/// buffers filled by the window-manager queries are laid out: everything up
/// to the first NUL (or the whole buffer when none occurs) is the text.
pub fn utf16_nul_to_string(units: &[u16]) -> (r: String)
    ensures
        r@ == utf16_decode(units@.take(len_to_nul(units@))),
{
    let n = units.len();
    let mut i: usize = 0;
    while i < n && units[i] != 0
        invariant
            0 <= i <= n == units@.len(),
            forall|j: int| 0 <= j < i ==> units@[j] != 0,
        decreases n - i,
    {
        i = i + 1;
    }
    proof {
        lemma_len_to_nul(units@, i as int);
        assert(units@.take(i as int) =~= units@.subrange(0, i as int));
    }
    utf16_range_to_string(units, 0, i)
}

/// The little-endian 16-bit value stored at pair index `i`.
pub open spec fn u16_le_at(bytes: Seq<u8>, i: int) -> u16 {
    (bytes[2 * i] + 0x100 * bytes[2 * i + 1]) as u16
}

/// The UTF-16 code units carried by a little-endian byte buffer, two bytes
/// per unit; a trailing odd byte carries no unit.
pub open spec fn utf16_units_le(bytes: Seq<u8>) -> Seq<u16> {
    Seq::new(bytes.len() / 2, |i: int| u16_le_at(bytes, i))
}

/// Reassembles UTF-16 code units from little-endian bytes.
pub fn utf16_from_bytes_le(bytes: &[u8]) -> (r: Vec<u16>)
    ensures
        r@ == utf16_units_le(bytes@),
{
    let len = bytes.len();
    let n = len / 2;
    let mut r: Vec<u16> = Vec::new();
    let mut i: usize = 0;
    while i < n
        invariant
            0 <= i <= n,
            len == bytes@.len(),
            n == bytes@.len() / 2,
            r@.len() == i,
            forall|j: int| 0 <= j < i ==> r@[j] == u16_le_at(bytes@, j),
        decreases n - i,
    {
        proof {
            assert(2 * i + 1 < bytes@.len());
        }
        let lo = bytes[2 * i];
        let hi = bytes[2 * i + 1];
        let u: u16 = (lo as u16) + 0x100 * (hi as u16);
        r.push(u);
        i = i + 1;
    }
    proof {
        assert(r@ =~= utf16_units_le(bytes@));
    }
    r
}

/// The uppercase hexadecimal digit character for a value below sixteen.
pub open spec fn hex_digit(d: int) -> char {
    if d < 10 {
        ((0x30 + d) as u32) as char
    } else {
        ((0x41 + (d - 10)) as u32) as char
    }
}

/// A 16-bit value as exactly four uppercase hexadecimal digits, zero-padded,
/// most significant first — the form in which a version-resource string
/// table is keyed by language id and code page.
pub open spec fn hex4_chars(n: int) -> Seq<char> {
    seq![
        hex_digit(n / 0x1000 % 16),
        hex_digit(n / 0x100 % 16),
        hex_digit(n / 0x10 % 16),
        hex_digit(n % 16),
    ]
}

fn hex_digit_char(d: u16) -> (c: char)
    requires
        d < 16,
    ensures
        c == hex_digit(d as int),
{
    if d < 10 {
        char_from_scalar(0x30 + d as u32)
    } else {
        char_from_scalar(0x41 + (d as u32 - 10))
    }
}

/// Renders a 16-bit value as four zero-padded uppercase hexadecimal digits.
pub fn u16_to_hex4(n: u16) -> (r: String)
    ensures
        r@ == hex4_chars(n as int),
{
    let mut out = String::new();
    let c0 = hex_digit_char(n / 0x1000);
    let c1 = hex_digit_char((n / 0x100) % 16);
    let c2 = hex_digit_char((n / 0x10) % 16);
    let c3 = hex_digit_char(n % 16);
    push_char(&mut out, c0);
    push_char(&mut out, c1);
    push_char(&mut out, c2);
    push_char(&mut out, c3);
    proof {
        assert(n as int / 0x1000 % 16 == n as int / 0x1000);
        assert(out@ =~= hex4_chars(n as int));
    }
    out
}

} // verus!
