//! The raw brightness estimate of one frame.

use vstd::prelude::*;
use crate::zones::Zone;

verus! {

/// Whether `sum` can be the sum of `count` bytes, for at least one byte.
pub open spec fn is_byte_mean(sum: nat, count: nat) -> bool {
    count > 0 && sum <= 255 * count
}

/// The mean `sum / count`, rounded down to a whole brightness level.
pub open spec fn mean_level(sum: nat, count: nat) -> nat {
    sum / count
}

/// The mean of a positive number of bytes lies between 0 and 255, and so does
/// its whole part.
pub proof fn lemma_mean_level_is_a_byte(sum: nat, count: nat)
    requires
        is_byte_mean(sum, count),
    ensures
        0 <= mean_level(sum, count) <= 255,
        mean_level(sum, count) * count <= sum < (mean_level(sum, count) + 1) * count,
{
    let q = sum as int / count as int;
    let r = sum as int % count as int;
    vstd::arithmetic::div_mod::lemma_fundamental_div_mod(sum as int, count as int);
    assert(0 <= r < count);
    assert(q <= 255 && q * count <= sum < (q + 1) * count) by (nonlinear_arith)
        requires
            sum == count * q + r,
            0 <= r < count,
            sum <= 255 * count,
    ;
}

/// The mean intensity of the sampled bytes of one frame, kept exactly as the
/// sum of the bytes and their number. It lies between 0 and 255.
#[derive(Clone, Copy, Debug, PartialEq, Eq, Structural)]
pub struct Estimate {
    sum: u128,
    count: usize,
}

impl Estimate {
    #[verifier::type_invariant]
    spec fn well_formed(self) -> bool {
        is_byte_mean(self.sum as nat, self.count as nat)
    }

    /// The sum of the sampled bytes.
    pub closed spec fn spec_sum(&self) -> u128 {
        self.sum
    }

    /// The number of sampled bytes.
    pub closed spec fn spec_count(&self) -> usize {
        self.count
    }

    /// The estimate of `count` bytes that add up to `sum`.
    pub closed spec fn spec_of(sum: nat, count: nat) -> Estimate {
        Estimate { sum: sum as u128, count: count as usize }
    }

    /// An estimate is known by its sum and its count.
    pub proof fn lemma_spec_of(sum: nat, count: nat)
        requires
            sum <= u128::MAX,
            count <= usize::MAX,
        ensures
            Estimate::spec_of(sum, count).sum() == sum,
            Estimate::spec_of(sum, count).count() == count,
    {
    }

    /// Two estimates of the same sum and count are the same estimate.
    pub proof fn lemma_same_parts(self, other: Estimate)
        requires
            self.sum() == other.sum(),
            self.count() == other.count(),
        ensures
            self == other,
            self == Estimate::spec_of(self.sum() as nat, self.count() as nat),
    {
    }

    /// The whole part of the mean.
    pub open spec fn spec_level(&self) -> u8 {
        mean_level(self.spec_sum() as nat, self.spec_count() as nat) as u8
    }

    /// The zone in which the mean lies.
    pub open spec fn spec_zone(&self) -> Zone {
        Zone::of_level(self.spec_level())
    }

    /// The mean of `count` bytes that add up to `sum`, if there can be such
    /// bytes: `count` is not zero and `sum` is at most `255 * count`.
    pub fn new(sum: u128, count: usize) -> (estimate: Option<Estimate>)
        ensures
            estimate is Some <==> is_byte_mean(sum as nat, count as nat),
            estimate matches Some(e) ==> e == Estimate::spec_of(sum as nat, count as nat) && e.sum()
                == sum && e.count() == count,
    {
        if count > 0 && sum <= 255 * (count as u128) {
            Some(Estimate { sum, count })
        } else {
            None
        }
    }

    /// The mean of bytes that were counted and added up.
    pub(crate) fn of_bytes(sum: u128, count: usize) -> (estimate: Estimate)
        requires
            is_byte_mean(sum as nat, count as nat),
        ensures
            estimate == Estimate::spec_of(sum as nat, count as nat),
            estimate.sum() == sum,
            estimate.count() == count,
    {
        Estimate { sum, count }
    }

    /// The estimate whose mean is exactly `level`.
    pub fn from_level(level: u8) -> (estimate: Estimate)
        ensures
            estimate == Estimate::spec_of(level as nat, 1),
            estimate.sum() == level,
            estimate.count() == 1,
            estimate.level() == level,
    {
        Estimate { sum: level as u128, count: 1 }
    }

    /// The sum of the sampled bytes.
    #[verifier::when_used_as_spec(spec_sum)]
    pub fn sum(&self) -> (sum: u128)
        ensures
            sum == self.spec_sum(),
            is_byte_mean(self.spec_sum() as nat, self.spec_count() as nat),
    {
        proof {
            use_type_invariant(self);
        }
        self.sum
    }

    /// The number of sampled bytes.
    #[verifier::when_used_as_spec(spec_count)]
    pub fn count(&self) -> (count: usize)
        ensures
            count == self.spec_count(),
            is_byte_mean(self.spec_sum() as nat, self.spec_count() as nat),
    {
        proof {
            use_type_invariant(self);
        }
        self.count
    }

    /// The mean, cut down to a whole brightness level.
    #[verifier::when_used_as_spec(spec_level)]
    pub fn level(&self) -> (level: u8)
        ensures
            level == self.spec_level(),
            level == mean_level(self.spec_sum() as nat, self.spec_count() as nat),
    {
        proof {
            use_type_invariant(self);
            lemma_mean_level_is_a_byte(self.sum as nat, self.count as nat);
        }
        (self.sum / (self.count as u128)) as u8
    }

    /// The zone in which the mean lies.
    #[verifier::when_used_as_spec(spec_zone)]
    pub fn zone(&self) -> (zone: Zone)
        ensures
            zone == self.spec_zone(),
    {
        Zone::classify(self.level())
    }
}

} // verus!
