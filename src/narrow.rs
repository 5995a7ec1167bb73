//! Checked integer narrowing, through the `cast` crate.

use vstd::prelude::*;

verus! {

/// Relies on `cast::u8` from `u32`: the same value when it is at most 255,
/// an `Overflow` error (here `None`) otherwise.
#[verifier::external_body]
pub(crate) fn narrow_to_u8(v: u32) -> (r: Option<u8>)
    ensures
        r is Some <==> v <= u8::MAX,
        r matches Some(x) ==> x == v,
{
    cast::u8(v).ok()
}

/// Relies on `cast::u16` from `u32`: the same value when it is at most
/// 65535, an `Overflow` error (here `None`) otherwise.
#[verifier::external_body]
pub(crate) fn narrow_to_u16(v: u32) -> (r: Option<u16>)
    ensures
        r is Some <==> v <= u16::MAX,
        r matches Some(x) ==> x == v,
{
    cast::u16(v).ok()
}

/// Relies on `cast::u32` from `u64`: the same value when it is at most
/// 2^32 - 1, an `Overflow` error (here `None`) otherwise.
#[verifier::external_body]
pub(crate) fn narrow_to_u32(v: u64) -> (r: Option<u32>)
    ensures
        r is Some <==> v <= u32::MAX,
        r matches Some(x) ==> x == v,
{
    cast::u32(v).ok()
}

} // verus!
