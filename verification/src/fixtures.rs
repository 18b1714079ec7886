//! Test fixtures: fixed-point numbers for the deterministic simulation.

use fixed::types::I32F32;
use vstd::prelude::*;

verus! {

/// The fixed-point number type of the `fixed` crate (64 bits, with `Frac`
/// fractional bits), carried through opaquely.
#[verifier::external_type_specification]
#[verifier::external_body]
#[verifier::reject_recursive_types(Frac)]
pub struct ExFixedI64<Frac>(fixed::FixedI64<Frac>);

/// The end of a type-level unsigned number of the `typenum` crate.
#[verifier::external_type_specification]
#[verifier::external_body]
pub struct ExUTerm(typenum::UTerm);

/// A type-level unsigned number of the `typenum` crate: more significant
/// digits `U` followed by the bit `B`.
#[verifier::external_type_specification]
#[verifier::external_body]
#[verifier::reject_recursive_types(U)]
#[verifier::reject_recursive_types(B)]
pub struct ExUInt<U, B>(typenum::UInt<U, B>);

/// The type-level bit 0 of the `typenum` crate.
#[verifier::external_type_specification]
#[verifier::external_body]
pub struct ExB0(typenum::B0);

/// The type-level bit 1 of the `typenum` crate.
#[verifier::external_type_specification]
#[verifier::external_body]
pub struct ExB1(typenum::B1);

/// Create a fixed-point number from an integer.
///
/// Trusted: calls `I32F32::from_num` of the `fixed` crate, which converts
/// an `i32` exactly (every `i32` lies in the range of `I32F32`), so the
/// call never panics.  The value is opaque here; no clause states it.
#[verifier::external_body]
pub fn fixed(n: i32) -> I32F32 {
    I32F32::from_num(n)
}

} // verus!
