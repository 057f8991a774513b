//! Little-endian readers and the header shared by the parameter groups.

use vstd::prelude::*;
use crate::constants::special_values::{check_valid, spec_is_invalid};

verus! {

/// The unsigned 16-bit value of two bytes, low byte first.
pub open spec fn spec_le_u16(lo: u8, hi: u8) -> u16 {
    (lo + 256 * hi) as u16
}

/// The signed 16-bit value of two bytes, low byte first, in two's complement.
pub open spec fn spec_le_i16(lo: u8, hi: u8) -> i16 {
    if hi < 128 {
        (lo + 256 * hi) as i16
    } else {
        (lo + 256 * hi - 65536) as i16
    }
}

/// The unsigned 32-bit value of four bytes, lowest byte first.
pub open spec fn spec_le_u32(b0: u8, b1: u8, b2: u8, b3: u8) -> u32 {
    (b0 + 256 * b1 + 65536 * b2 + 16777216 * b3) as u32
}

/// The signed 16-bit value at an offset, if two bytes are there.
pub open spec fn spec_read_i16(data: Seq<u8>, offset: int) -> Option<i16> {
    if 0 <= offset && offset + 2 <= data.len() {
        Some(spec_le_i16(data[offset], data[offset + 1]))
    } else {
        None
    }
}

/// The unsigned 16-bit value at an offset, if two bytes are there.
pub open spec fn spec_read_u16(data: Seq<u8>, offset: int) -> Option<u16> {
    if 0 <= offset && offset + 2 <= data.len() {
        Some(spec_le_u16(data[offset], data[offset + 1]))
    } else {
        None
    }
}

/// The unsigned 32-bit value at an offset, if four bytes are there.
pub open spec fn spec_read_u32(data: Seq<u8>, offset: int) -> Option<u32> {
    if 0 <= offset && offset + 4 <= data.len() {
        Some(spec_le_u32(data[offset], data[offset + 1], data[offset + 2], data[offset + 3]))
    } else {
        None
    }
}

/// The group header at an offset, if six bytes are there: a 32-bit status
/// word followed by a 16-bit label.
pub open spec fn spec_group_header(data: Seq<u8>, offset: int) -> Option<GroupHeader> {
    if 0 <= offset && offset + 6 <= data.len() {
        Some(
            GroupHeader {
                status: spec_le_u32(
                    data[offset],
                    data[offset + 1],
                    data[offset + 2],
                    data[offset + 3],
                ),
                label: spec_le_u16(data[offset + 4], data[offset + 5]),
            },
        )
    } else {
        None
    }
}

/// Reads a signed 16-bit value, low byte first. `None` where the data ends
/// before the second byte.
pub fn read_i16(data: &[u8], offset: usize) -> (r: Option<i16>)
    ensures
        r == spec_read_i16(data@, offset as int),
{
    if data.len() < 2 || offset > data.len() - 2 {
        return None;
    }
    let unsigned: u16 = (data[offset] as u16) + (data[offset + 1] as u16) * 256;
    if unsigned < 32768 {
        Some(unsigned as i16)
    } else {
        Some((unsigned as i32 - 65536) as i16)
    }
}

/// Reads an unsigned 32-bit value, lowest byte first. `None` where the data
/// ends before the fourth byte.
pub fn read_u32(data: &[u8], offset: usize) -> (r: Option<u32>)
    ensures
        r == spec_read_u32(data@, offset as int),
{
    if data.len() < 4 || offset > data.len() - 4 {
        return None;
    }
    Some(
        (data[offset] as u32) + (data[offset + 1] as u32) * 256 + (data[offset + 2] as u32) * 65536
            + (data[offset + 3] as u32) * 16777216,
    )
}

/// Reads an unsigned 16-bit value, low byte first. `None` where the data ends
/// before the second byte.
pub fn read_u16(data: &[u8], offset: usize) -> (r: Option<u16>)
    ensures
        r == spec_read_u16(data@, offset as int),
{
    if data.len() < 2 || offset > data.len() - 2 {
        return None;
    }
    Some((data[offset] as u16) + (data[offset + 1] as u16) * 256)
}

/// Reads a signed 16-bit measurement. `None` where the data ends too early and
/// where the value read is reserved.
pub fn read_valid_i16(data: &[u8], offset: usize) -> (r: Option<i16>)
    ensures
        r == match spec_read_i16(data@, offset as int) {
            Some(value) => if spec_is_invalid(value) {
                None
            } else {
                Some(value)
            },
            None => None,
        },
{
    match read_i16(data, offset) {
        Some(value) => check_valid(value),
        None => None,
    }
}

/// Reads the six-byte header of a parameter group. `None` where the data ends
/// before the sixth byte.
pub fn parse_group_header(data: &[u8], offset: usize) -> (r: Option<GroupHeader>)
    ensures
        r == spec_group_header(data@, offset as int),
{
    if data.len() < 6 || offset > data.len() - 6 {
        return None;
    }
    let status = (data[offset] as u32) + (data[offset + 1] as u32) * 256 + (data[offset
        + 2] as u32) * 65536 + (data[offset + 3] as u32) * 16777216;
    let label = (data[offset + 4] as u16) + (data[offset + 5] as u16) * 256;
    Some(GroupHeader { status, label })
}

/// Header of a parameter group.
#[derive(Debug, Clone, Copy, PartialEq, Eq, Structural)]
pub struct GroupHeader {
    /// Status word: bit 0 says the module exists, bit 1 that it is active,
    /// the higher bits are flags of the group.
    pub status: u32,
    /// Label of the group, or further flags.
    pub label: u16,
}

/// Mask of the `width` lowest bits of a 32-bit word, for a width of 1 to 32.
pub open spec fn spec_low_mask32(width: u8) -> u32 {
    (((1u64 << (width as u64)) - 1) as u32)
}

/// Mask of the `width` lowest bits of a 16-bit word, for a width of 1 to 16.
pub open spec fn spec_low_mask16(width: u8) -> u16 {
    (((1u32 << (width as u32)) - 1) as u16)
}

impl GroupHeader {
    /// Bit 0 of the status word: the module exists.
    pub open spec fn spec_module_exists(&self) -> bool {
        self.status & 0x01 != 0
    }

    /// Bit 1 of the status word: the module is active.
    pub open spec fn spec_active(&self) -> bool {
        self.status & 0x02 != 0
    }

    /// A bit of the status word; bits beyond the word are clear.
    pub open spec fn spec_get_bit(&self, bit: u8) -> bool {
        bit < 32 && self.status & (1u32 << (bit as u32)) != 0
    }

    /// The bits `start` to `end` of the status word, shifted down to bit 0.
    /// An empty range and one that leaves the word give 0.
    pub open spec fn spec_get_bits(&self, start: u8, end: u8) -> u32 {
        if start >= 32 || end >= 32 || start > end {
            0
        } else {
            (self.status >> (start as u32)) & spec_low_mask32((end - start + 1) as u8)
        }
    }

    /// Whether the module exists.
    pub fn module_exists(&self) -> (r: bool)
        ensures
            r == self.spec_module_exists(),
    {
        (self.status & 0x01) != 0
    }

    /// Whether the module is active.
    pub fn active(&self) -> (r: bool)
        ensures
            r == self.spec_active(),
    {
        (self.status & 0x02) != 0
    }

    /// A bit of the status word; bits beyond the word are clear.
    pub fn get_bit(&self, bit: u8) -> (r: bool)
        ensures
            r == self.spec_get_bit(bit),
    {
        if bit >= 32 {
            return false;
        }
        (self.status & (1u32 << (bit as u32))) != 0
    }

    /// The bits `start` to `end` of the status word, shifted down to bit 0.
    /// An empty range and one that leaves the word give 0.
    pub fn get_bits(&self, start: u8, end: u8) -> (r: u32)
        ensures
            r == self.spec_get_bits(start, end),
    {
        if start >= 32 || end >= 32 || start > end {
            return 0;
        }
        let width: u8 = end - start + 1;
        let wide: u64 = 1u64 << (width as u64);
        assert(1 <= wide <= 0x1_0000_0000u64) by (bit_vector)
            requires
                wide == 1u64 << (width as u64),
                1 <= width <= 32,
        ;
        let mask = (wide - 1) as u32;
        (self.status >> (start as u32)) & mask
    }
}

/// The bits `start` to `end` of a label, shifted down to bit 0. An empty range
/// and one that leaves the label give 0.
pub open spec fn spec_extract_label_bits(label: u16, start: u8, end: u8) -> u16 {
    if start >= 16 || end >= 16 || start > end {
        0
    } else {
        (label >> (start as u16)) & spec_low_mask16((end - start + 1) as u8)
    }
}

/// The bits `start` to `end` of a label, shifted down to bit 0. An empty range
/// and one that leaves the label give 0.
pub fn extract_label_bits(label: u16, start: u8, end: u8) -> (r: u16)
    ensures
        r == spec_extract_label_bits(label, start, end),
{
    if start >= 16 || end >= 16 || start > end {
        return 0;
    }
    let width: u8 = end - start + 1;
    let wide: u32 = 1u32 << (width as u32);
    assert(1 <= wide <= 0x1_0000u32) by (bit_vector)
        requires
            wide == 1u32 << (width as u32),
            1 <= width <= 16,
    ;
    let mask = (wide - 1) as u16;
    (label >> (start as u16)) & mask
}

} // verus!
