//! Command-line extraction from a foreign process.
//!
//! The command line a process was launched with sits behind a chain of
//! pointers inside that process's own address space: its basic-information
//! block points at the process environment block ("PEB"), the PEB points at a
//! process-parameters block, and that block carries the command line as a
//! length-prefixed wide-character descriptor (pointer plus byte length, not
//! NUL-terminated). The application performs each cross-process read; this
//! module interprets every buffer that comes back, bounds-checked against the
//! amount actually read, and rejects a null or implausible pointer instead of
//! chasing it. The layout constants follow the 64-bit process model.
//!
//! All fields are stored little-endian, as the reads return them.

use crate::error::WindowError;
use crate::wstr::{utf16_decode, utf16_from_bytes_le, utf16_to_string, utf16_units_le};
use vstd::prelude::*;

verus! {

/// Size in bytes of the process basic-information block.
pub const BASIC_INFO_SIZE: usize = 48;

/// Byte offset of the PEB base address inside the basic-information block.
pub const BASIC_INFO_PEB_OFFSET: usize = 8;

/// How many bytes of the PEB must be read to reach the parameters pointer.
pub const PEB_READ_SIZE: usize = 0x28;

/// Byte offset of the process-parameters pointer inside the PEB.
pub const PEB_PARAMETERS_OFFSET: usize = 0x20;

/// How many bytes of the parameters block must be read to reach the
/// command-line descriptor.
pub const PARAMS_READ_SIZE: usize = 0x80;

/// Byte offset of the command-line descriptor inside the parameters block:
/// its byte length sits first, the buffer pointer eight bytes further.
pub const PARAMS_COMMAND_LINE_OFFSET: usize = 0x70;

/// The little-endian 16-bit value at byte offset `off`.
pub open spec fn u16_le_bytes_at(b: Seq<u8>, off: int) -> u16 {
    (b[off] + 0x100 * b[off + 1]) as u16
}

/// The little-endian 64-bit value at byte offset `off`.
pub open spec fn u64_le_at(b: Seq<u8>, off: int) -> u64 {
    (b[off] + b[off + 1] * 0x100 + b[off + 2] * 0x10000 + b[off + 3] * 0x1000000 + b[off + 4]
        * 0x100000000 + b[off + 5] * 0x10000000000 + b[off + 6] * 0x1000000000000 + b[off + 7]
        * 0x100000000000000) as u64
}

/// Reads the little-endian 16-bit field at byte offset `off`.
pub fn read_u16_le(buf: &[u8], off: usize) -> (r: u16)
    requires
        off + 2 <= buf@.len(),
    ensures
        r == u16_le_bytes_at(buf@, off as int),
{
    let len = buf.len();
    (buf[off] as u16) + 0x100 * (buf[off + 1] as u16)
}

/// Reads the little-endian 64-bit field at byte offset `off`.
pub fn read_u64_le(buf: &[u8], off: usize) -> (r: u64)
    requires
        off + 8 <= buf@.len(),
    ensures
        r == u64_le_at(buf@, off as int),
{
    let len = buf.len();
    (buf[off] as u64) + (buf[off + 1] as u64) * 0x100 + (buf[off + 2] as u64) * 0x10000 + (buf[off
        + 3] as u64) * 0x1000000 + (buf[off + 4] as u64) * 0x100000000 + (buf[off + 5] as u64)
        * 0x10000000000 + (buf[off + 6] as u64) * 0x1000000000000 + (buf[off + 7] as u64)
        * 0x100000000000000
}

/// The PEB base address carried by a basic-information block. A read of the
/// wrong size or a null address is an inconsistent response.
pub fn peb_address_from_basic_info(buf: &[u8]) -> (r: Result<u64, WindowError>)
    ensures
        buf@.len() != BASIC_INFO_SIZE ==> r == Err::<u64, WindowError>(
            WindowError::InconsistentOsResponse,
        ),
        buf@.len() == BASIC_INFO_SIZE ==> {
            let addr = u64_le_at(buf@, BASIC_INFO_PEB_OFFSET as int);
            if addr == 0 {
                r == Err::<u64, WindowError>(WindowError::InconsistentOsResponse)
            } else {
                r == Ok::<u64, WindowError>(addr)
            }
        },
{
    if buf.len() != BASIC_INFO_SIZE {
        return Err(WindowError::InconsistentOsResponse);
    }
    let addr = read_u64_le(buf, BASIC_INFO_PEB_OFFSET);
    if addr == 0 {
        return Err(WindowError::InconsistentOsResponse);
    }
    Ok(addr)
}

/// The process-parameters address carried by the start of a PEB. A read of
/// the wrong size or a null address is an inconsistent response.
pub fn parameters_address_from_peb(buf: &[u8]) -> (r: Result<u64, WindowError>)
    ensures
        buf@.len() != PEB_READ_SIZE ==> r == Err::<u64, WindowError>(
            WindowError::InconsistentOsResponse,
        ),
        buf@.len() == PEB_READ_SIZE ==> {
            let addr = u64_le_at(buf@, PEB_PARAMETERS_OFFSET as int);
            if addr == 0 {
                r == Err::<u64, WindowError>(WindowError::InconsistentOsResponse)
            } else {
                r == Ok::<u64, WindowError>(addr)
            }
        },
{
    if buf.len() != PEB_READ_SIZE {
        return Err(WindowError::InconsistentOsResponse);
    }
    let addr = read_u64_le(buf, PEB_PARAMETERS_OFFSET);
    if addr == 0 {
        return Err(WindowError::InconsistentOsResponse);
    }
    Ok(addr)
}

/// The command-line descriptor: where the string lives in the foreign
/// process and how many bytes it occupies.
#[derive(Clone, Copy, Debug, PartialEq, Eq, Structural)]
pub struct CommandLineField {
    /// Address of the wide-character string in the foreign address space.
    pub buffer_address: u64,
    /// Length of the string in bytes; no terminator is included.
    pub byte_len: u16,
}

/// The command-line descriptor carried by a process-parameters block. A read
/// of the wrong size, a null buffer pointer or an odd byte length (no whole
/// number of wide characters) is an inconsistent response.
pub fn command_line_field_from_parameters(buf: &[u8]) -> (r: Result<
    CommandLineField,
    WindowError,
>)
    ensures
        buf@.len() != PARAMS_READ_SIZE ==> r == Err::<CommandLineField, WindowError>(
            WindowError::InconsistentOsResponse,
        ),
        buf@.len() == PARAMS_READ_SIZE ==> {
            let addr = u64_le_at(buf@, PARAMS_COMMAND_LINE_OFFSET + 8);
            let byte_len = u16_le_bytes_at(buf@, PARAMS_COMMAND_LINE_OFFSET as int);
            if addr == 0 || byte_len % 2 != 0 {
                r == Err::<CommandLineField, WindowError>(WindowError::InconsistentOsResponse)
            } else {
                r == Ok::<CommandLineField, WindowError>(
                    CommandLineField { buffer_address: addr, byte_len },
                )
            }
        },
{
    if buf.len() != PARAMS_READ_SIZE {
        return Err(WindowError::InconsistentOsResponse);
    }
    let byte_len = read_u16_le(buf, PARAMS_COMMAND_LINE_OFFSET);
    let addr = read_u64_le(buf, PARAMS_COMMAND_LINE_OFFSET + 8);
    if addr == 0 || byte_len % 2 != 0 {
        return Err(WindowError::InconsistentOsResponse);
    }
    Ok(CommandLineField { buffer_address: addr, byte_len })
}

/// The literal command line encoded by a buffer of little-endian UTF-16
/// bytes.
pub open spec fn spec_command_line(bytes: Seq<u8>) -> Seq<char> {
    utf16_decode(utf16_units_le(bytes))
}

/// Decodes the final cross-process read into the literal command-line
/// string. The read must have returned exactly the number of bytes the
/// descriptor promised, and a whole number of wide characters; anything else
/// is an inconsistent response.
pub fn get_command_line_args(bytes: &[u8], expected_byte_len: u16) -> (r: Result<
    String,
    WindowError,
>)
    ensures
        bytes@.len() != expected_byte_len || expected_byte_len % 2 != 0 ==> r == Err::<
            String,
            WindowError,
        >(WindowError::InconsistentOsResponse),
        bytes@.len() == expected_byte_len && expected_byte_len % 2 == 0 ==> r is Ok
            && r->Ok_0@ == spec_command_line(bytes@),
{
    if bytes.len() != expected_byte_len as usize || expected_byte_len % 2 != 0 {
        return Err(WindowError::InconsistentOsResponse);
    }
    let units = utf16_from_bytes_le(bytes);
    let s = utf16_to_string(units.as_slice());
    Ok(s)
}

} // verus!
