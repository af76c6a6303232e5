//! Little-endian byte order of 16-bit words, as the `byteorder` crate computes it.
use byteorder::{ByteOrder, LittleEndian};
use vstd::prelude::*;

verus! {

/// Relies on byteorder's `LittleEndian::read_u16`: the first byte is the low one.
#[verifier::external_body]
pub(crate) fn read_le_u16(lo: u8, hi: u8) -> (r: u16)
    ensures
        r as int == lo as int + 0x100 * hi as int,
{
    LittleEndian::read_u16(&[lo, hi])
}

/// Relies on byteorder's `LittleEndian::write_u16`: the low byte is written first.
#[verifier::external_body]
pub(crate) fn write_le_u16(value: u16) -> (r: (u8, u8))
    ensures
        r.0 as int == value as int % 0x100,
        r.1 as int == value as int / 0x100,
{
    let mut buf = [0u8; 2];
    LittleEndian::write_u16(&mut buf, value);
    (buf[0], buf[1])
}

} // verus!
