//! The numeric conventions that both realizations share.

use vstd::prelude::*;

verus! {

/// The signed integer with the same 32 bits as `value`.
pub open spec fn as_signed(value: u32) -> i32 {
    if value <= 0x7FFF_FFFF {
        value as i32
    } else {
        (value - 0x1_0000_0000) as i32
    }
}

/// The signed integer with the same 32 bits as `value`.
#[verifier::when_used_as_spec(as_signed)]
pub fn signed(value: u32) -> (signed: i32)
    ensures
        signed == as_signed(value),
{
    if value <= 0x7FFF_FFFF {
        value as i32
    } else {
        let low: u32 = value - 0x8000_0000;
        (low as i32) + i32::MIN
    }
}

/// The attribute index that a raw lookup result stands for: a negative
/// result means that there is no such attribute.
pub open spec fn attrib_index(raw: i32) -> Option<u32> {
    if raw >= 0 {
        Some(raw as u32)
    } else {
        None
    }
}

/// The attribute index that a raw lookup result stands for.
pub fn attrib_index_of(raw: i32) -> (location: Option<u32>)
    ensures
        location == attrib_index(raw),
{
    if raw >= 0 {
        Some(raw as u32)
    } else {
        None
    }
}

} // verus!
