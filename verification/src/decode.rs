//! Fields of a 16-bit instruction word.

use vstd::prelude::*;

verus! {

/// A 16-bit instruction word.
pub type OpCode = u16;

/// The primary group: the top four bits.
pub open spec fn group_of(v: u16) -> int {
    v as int / 4096
}

/// The first register operand: bits 8 to 11.
pub open spec fn x_of(v: u16) -> int {
    (v as int / 256) % 16
}

/// The second register operand: bits 4 to 7.
pub open spec fn y_of(v: u16) -> int {
    (v as int / 16) % 16
}

/// The low four bits.
pub open spec fn nibble_of(v: u16) -> int {
    v as int % 16
}

/// The low byte.
pub open spec fn byte_of(v: u16) -> u8 {
    (v % 256) as u8
}

/// The low twelve bits.
pub open spec fn addr_of(v: u16) -> u16 {
    (v % 4096) as u16
}

/// The primary group of `v`.
pub fn op_group(v: OpCode) -> (r: usize)
    ensures
        r == group_of(v),
        r < 16,
{
    (v / 4096) as usize
}

/// The first register operand of `v`.
pub fn op_x(v: OpCode) -> (r: usize)
    ensures
        r == x_of(v),
        r < 16,
{
    ((v / 256) % 16) as usize
}

/// The second register operand of `v`.
pub fn op_y(v: OpCode) -> (r: usize)
    ensures
        r == y_of(v),
        r < 16,
{
    ((v / 16) % 16) as usize
}

/// The low four bits of `v`.
pub fn op_nibble(v: OpCode) -> (r: usize)
    ensures
        r == nibble_of(v),
        r < 16,
{
    (v % 16) as usize
}

/// The low byte of `v`.
pub fn op_byte(v: OpCode) -> (r: u8)
    ensures
        r == byte_of(v),
{
    (v % 256) as u8
}

/// The low twelve bits of `v`.
pub fn op_addr(v: OpCode) -> (r: u16)
    ensures
        r == addr_of(v),
        r < 4096,
{
    v % 4096
}

/// The decoders agree with the masks and shifts of the instruction encoding.
pub proof fn law_fields_are_bit_fields(v: u16)
    ensures
        group_of(v) == (v & 0xF000) >> 12,
        x_of(v) == (v & 0x0F00) >> 8,
        y_of(v) == (v & 0x00F0) >> 4,
        nibble_of(v) == v & 0x000F,
        byte_of(v) == v & 0x00FF,
        addr_of(v) == v & 0x0FFF,
{
    assert(v / 4096 == (v & 0xF000) >> 12) by (bit_vector);
    assert((v / 256) % 16 == (v & 0x0F00) >> 8) by (bit_vector);
    assert((v / 16) % 16 == (v & 0x00F0) >> 4) by (bit_vector);
    assert(v % 16 == v & 0x000F) by (bit_vector);
    assert(v % 256 == v & 0x00FF) by (bit_vector);
    assert(v % 4096 == v & 0x0FFF) by (bit_vector);
}

} // verus!
