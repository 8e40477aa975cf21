//! The layers of noise that make up one elevation sample.
//!
//! A sample is a weighted sum of noise readings, one reading for each
//! harmonic, divided by the sum of the weights. The readings are taken, and
//! summed, by the host in floating point. Which harmonics there are, what
//! each weighs and how far it is stretched is settled here, in whole numbers:
//! harmonic `h` weighs `(8 - h) / 8` and reads the noise at the point divided
//! by `h + 1`.
use vstd::prelude::*;

verus! {

/// The number of harmonics in a sample.
pub const HARMONICS: u32 = 8;

/// What the weights are counted in: a weight of `n` stands for `n / 8`.
pub const WEIGHT_UNIT: u32 = 8;

/// The weights of all harmonics, added up, in eighths: what the weighted sum
/// of the readings is divided by.
pub const TOTAL_WEIGHT: u32 = 36;

/// The weight of a harmonic, in eighths: 8 for the first, one less for each
/// that follows.
pub open spec fn weight_of(harmonic: nat) -> nat {
    if harmonic < 8 {
        (8 - harmonic) as nat
    } else {
        0
    }
}

/// What the point is divided by before a harmonic reads the noise there.
pub open spec fn stretch_of(harmonic: nat) -> nat {
    harmonic + 1
}

/// The weights of the first `count` harmonics, added up, in eighths.
pub open spec fn weight_sum(count: nat) -> nat
    decreases count,
{
    if count == 0 {
        0
    } else {
        weight_sum((count - 1) as nat) + weight_of((count - 1) as nat)
    }
}

/// The readings of the first `count` harmonics, each times its weight in
/// eighths, added up.
pub open spec fn weighted_sum(readings: Seq<int>, count: nat) -> int
    decreases count,
{
    if count == 0 {
        0
    } else {
        weighted_sum(readings, (count - 1) as nat) + readings[count - 1] * weight_of(
            (count - 1) as nat,
        )
    }
}

/// The weight of a harmonic, in eighths.
pub fn weight(harmonic: u32) -> (eighths: u32)
    requires
        harmonic < HARMONICS,
    ensures
        eighths == weight_of(harmonic as nat),
        eighths == 8 - harmonic,
        1 <= eighths <= WEIGHT_UNIT,
{
    WEIGHT_UNIT - harmonic
}

/// What the point is divided by for a harmonic.
pub fn stretch(harmonic: u32) -> (divisor: u32)
    requires
        harmonic < HARMONICS,
    ensures
        divisor == stretch_of(harmonic as nat),
        divisor == harmonic + 1,
        1 <= divisor <= HARMONICS,
{
    harmonic + 1
}

/// The total weight is the sum of the weights of all harmonics.
pub proof fn total_weight_is_sum()
    ensures
        weight_sum(HARMONICS as nat) == TOTAL_WEIGHT,
{
    reveal_with_fuel(weight_sum, 9);
}

/// The weighted sum is no larger than the sum of the weights allows: where
/// no reading is larger in magnitude than `bound`, the weighted sum of the
/// first `count` readings is no larger in magnitude than `bound` times the
/// sum of their weights.
pub proof fn weighted_sum_is_bounded(readings: Seq<int>, bound: int, count: nat)
    requires
        count <= readings.len(),
        forall|h: int| 0 <= h < count ==> -bound <= #[trigger] readings[h] <= bound,
    ensures
        -bound * weight_sum(count) <= weighted_sum(readings, count) <= bound * weight_sum(count),
    decreases count,
{
    let total = weight_sum(count) as int;
    if count == 0 {
        assert(bound * total == 0 && -bound * total == 0) by (nonlinear_arith)
            requires
                total == 0,
        ;
    } else {
        let before: nat = (count - 1) as nat;
        weighted_sum_is_bounded(readings, bound, before);
        let reading = readings[before as int];
        let weight = weight_of(before) as int;
        let total_before = weight_sum(before) as int;
        assert(-bound * weight <= reading * weight <= bound * weight) by (nonlinear_arith)
            requires
                -bound <= reading <= bound,
                weight >= 0,
        ;
        assert(bound * total == bound * total_before + bound * weight && -bound * total == -bound
            * total_before + -bound * weight) by (nonlinear_arith)
            requires
                total == total_before + weight,
        ;
    }
}

/// A sample is normalised: with readings between `-bound` and `bound`, the
/// weighted sum of all harmonics lies between `-bound` and `bound` times the
/// total weight.
pub proof fn sample_is_normalised(readings: Seq<int>, bound: int)
    requires
        readings.len() == HARMONICS,
        forall|h: int| 0 <= h < HARMONICS ==> -bound <= #[trigger] readings[h] <= bound,
    ensures
        -bound * TOTAL_WEIGHT <= weighted_sum(readings, HARMONICS as nat) <= bound * TOTAL_WEIGHT,
{
    total_weight_is_sum();
    weighted_sum_is_bounded(readings, bound, HARMONICS as nat);
}

} // verus!
