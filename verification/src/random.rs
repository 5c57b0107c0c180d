//! The random number generator that places the gaps.

use vstd::prelude::*;

verus! {

/// The generator of `bracket_lib`. Its state is opaque to the proofs.
#[verifier::external_type_specification]
#[verifier::external_body]
pub struct ExRandomNumberGenerator(bracket_lib::random::RandomNumberGenerator);

/// `RandomNumberGenerator::new` gives a generator seeded from the machine.
/// Nothing is claimed of it.
pub assume_specification[ bracket_lib::random::RandomNumberGenerator::new ]() -> (rng:
    bracket_lib::random::RandomNumberGenerator);

/// What `RandomNumberGenerator::range` makes, at `i32`, of a generator and the
/// two ends of a range: the value that it draws, and the generator as the
/// draw leaves it. The generator is a xorshift generator, so both depend on
/// nothing but the generator's state and the two ends.
pub uninterp spec fn range_outcome(
    rng: bracket_lib::random::RandomNumberGenerator,
    min: int,
    max: int,
) -> (int, bracket_lib::random::RandomNumberGenerator);

/// Calls `RandomNumberGenerator::range` at `i32`. The generator samples the
/// half-open range `min..max`, which must not be empty: whatever it draws is
/// at least `min` and less than `max`. The value drawn and the generator
/// after the draw are the two parts of `range_outcome`.
#[verifier::external_body]
pub(crate) fn range(
    rng: &mut bracket_lib::random::RandomNumberGenerator,
    min: i32,
    max: i32,
) -> (drawn: i32)
    requires
        min < max,
    ensures
        min <= drawn < max,
        drawn == range_outcome(*old(rng), min as int, max as int).0,
        *final(rng) == range_outcome(*old(rng), min as int, max as int).1,
{
    rng.range(min, max)
}

} // verus!
