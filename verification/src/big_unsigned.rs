//! What this library takes on trust from `num_bigint::BigUint`: nothing
//! here is proved, and every proof about magnitudes of arbitrary size
//! rests on these statements.

use num_bigint::BigUint;
use num_traits::{ToPrimitive, Zero};
use vstd::prelude::*;

verus! {

/// `num_bigint::BigUint`, an unsigned integer of any size. Its inside is
/// not known here.
#[verifier::external_type_specification]
#[verifier::external_body]
pub struct ExBigUint(BigUint);

/// The number that a `BigUint` holds.
pub uninterp spec fn big_value(number: BigUint) -> nat;

/// `Zero::is_zero` of `BigUint`: whether the number is zero.
#[verifier::external_body]
pub(crate) fn big_is_zero(number: &BigUint) -> (zero: bool)
    ensures
        zero == (big_value(*number) == 0),
{
    number.is_zero()
}

/// `&BigUint % u32`: the remainder of the number by a divisor other than
/// zero, for which the outside code panics.
#[verifier::external_body]
pub(crate) fn big_rem_small(number: &BigUint, divisor: u32) -> (rest: BigUint)
    requires
        divisor != 0,
    ensures
        big_value(rest) == big_value(*number) % (divisor as nat),
{
    number % divisor
}

/// `BigUint / u32`: the quotient of the number by a divisor other than
/// zero, for which the outside code panics, rounded down.
#[verifier::external_body]
pub(crate) fn big_div_small(number: BigUint, divisor: u32) -> (quotient: BigUint)
    requires
        divisor != 0,
    ensures
        big_value(quotient) == big_value(number) / (divisor as nat),
{
    number / divisor
}

/// `ToPrimitive::to_u8` of `BigUint`: the number as a byte, where it
/// fits in one.
#[verifier::external_body]
pub(crate) fn big_to_u8(number: &BigUint) -> (byte: Option<u8>)
    ensures
        big_value(*number) <= u8::MAX ==> byte == Some(big_value(*number) as u8),
        big_value(*number) > u8::MAX ==> byte.is_none(),
{
    number.to_u8()
}

} // verus!
