//! The unresponsiveness offence record and its slash-fraction curve.
//!
//! The curve is `min(3 * (offenders - 1) / validators_count, 1) * 0.05`,
//! computed deterministically in fixed point with billionth granularity and
//! truncation at each arithmetic step, so every node derives the same
//! penalty.

use vstd::prelude::*;
use vstd::arithmetic::div_mod::{
    lemma_div_is_ordered, lemma_div_multiples_vanish, lemma_div_of0, lemma_div_pos_is_pos,
};
use vstd::arithmetic::mul::lemma_mul_inequality;
use crate::heartbeat::{clone_id, AuthorityId, SessionIndex};

verus! {

/// One billion: the denominator of a `Perbill` fraction.
pub const BILLION: u32 = 1_000_000_000;

/// A fixed-point fraction with billionth granularity, in [0, 1].
#[derive(Clone, Copy, PartialEq, Eq, Structural, Debug)]
pub struct Perbill {
    /// Billionths; at most one billion.
    pub parts: u32,
}

impl Perbill {
    /// The fraction holds at most one billion billionths.
    pub open spec fn wf(self) -> bool {
        self.parts <= BILLION
    }

    /// The fraction with exactly `parts` billionths.
    pub fn from_parts(parts: u32) -> (r: Perbill)
        requires
            parts <= BILLION,
        ensures
            r.parts == parts,
            r.wf(),
    {
        Perbill { parts }
    }

    /// The zero fraction.
    pub fn zero() -> (r: Perbill)
        ensures
            r.parts == 0,
            r.wf(),
    {
        Perbill { parts: 0 }
    }

    /// The number of billionths.
    pub fn into_parts(self) -> (r: u32)
        ensures
            r == self.parts,
    {
        self.parts
    }
}

/// The session-indexed time measure attached to an offence report.
pub type TimeSlot = u128;

/// An offence filed when validators failed to send a heartbeat during a
/// session; built once at session end and handed to the reporting
/// collaborator.
pub struct UnresponsivnessOffence {
    /// The session index that started the era in which the incident happened.
    pub current_era_start_session_index: SessionIndex,
    /// The session index at which the report is filed (the session's end).
    pub session_index: SessionIndex,
    /// The size of the validator set in that session.
    pub validators_count: u32,
    /// The authorities that were unresponsive, in roster order.
    pub offenders: Vec<AuthorityId>,
}

/// `min(3 * (offenders - 1) / validators_count, 1)` in billionths, the
/// division truncating.
pub open spec fn spec_slash_base(offenders: u32, validators_count: u32) -> int
    recommends
        validators_count > 0,
{
    let scaled = 3 * (offenders - 1) * (BILLION as int) / (validators_count as int);
    if scaled > BILLION as int {
        BILLION as int
    } else {
        scaled
    }
}

/// The slash fraction in billionths: five percent of the base fraction,
/// truncating again.
pub open spec fn spec_slash_fraction(offenders: u32, validators_count: u32) -> int
    recommends
        validators_count > 0,
{
    spec_slash_base(offenders, validators_count) * 50_000_000 / (BILLION as int)
}

impl UnresponsivnessOffence {
    /// The unresponsive authorities, in roster order.
    pub fn offenders(&self) -> (r: Vec<AuthorityId>)
        ensures
            r.deep_view() == self.offenders.deep_view(),
    {
        let mut out: Vec<AuthorityId> = Vec::new();
        let mut i: usize = 0;
        while i < self.offenders.len()
            invariant
                i <= self.offenders@.len(),
                out@.len() == i,
                forall|j: int| 0 <= j < i ==> out@[j]@ == self.offenders@[j]@,
            decreases self.offenders@.len() - i,
        {
            out.push(clone_id(&self.offenders[i]));
            i += 1;
        }
        proof {
            assert(out.deep_view() =~= self.offenders.deep_view());
        }
        out
    }

    /// The session index that started the era of the incident.
    pub fn current_era_start_session_index(&self) -> (r: SessionIndex)
        ensures
            r == self.current_era_start_session_index,
    {
        self.current_era_start_session_index
    }

    /// The size of the validator set in the session.
    pub fn validators_count(&self) -> (r: u32)
        ensures
            r == self.validators_count,
    {
        self.validators_count
    }

    /// The report's time slot: the session index at which it is filed.
    pub fn time_slot(&self) -> (r: TimeSlot)
        ensures
            r == self.session_index as TimeSlot,
    {
        self.session_index as u128
    }

    /// The penalty fraction for `offenders` unresponsive validators out of
    /// `validators_count`: `min(3 * (offenders - 1) / validators_count, 1)`
    /// scaled by five percent, truncating at each step. A single offender is
    /// never penalized.
    pub fn slash_fraction(offenders: u32, validators_count: u32) -> (r: Perbill)
        requires
            1 <= offenders,
            offenders <= validators_count,
        ensures
            r.parts == spec_slash_fraction(offenders, validators_count),
            r.wf(),
    {
        let numerator: u64 = 3u64 * ((offenders - 1) as u64);
        proof {
            lemma_mul_inequality(numerator as int, 0xffff_fffeint * 3, 1_000_000_000);
        }
        let scaled: u64 = numerator * 1_000_000_000u64 / (validators_count as u64);
        let base: u64 = if scaled > 1_000_000_000u64 {
            1_000_000_000u64
        } else {
            scaled
        };
        proof {
            lemma_mul_inequality(base as int, 1_000_000_000, 50_000_000);
            lemma_div_is_ordered(base as int * 50_000_000, 50_000_000_000_000_000, 1_000_000_000);
        }
        let parts: u64 = base * 50_000_000u64 / 1_000_000_000u64;
        Perbill { parts: parts as u32 }
    }
}

/// A single unresponsive validator is never penalized: the slash fraction
/// for one offender is exactly zero, whatever the validator count.
pub proof fn lemma_single_offender_not_slashed(validators_count: u32)
    requires
        1 <= validators_count,
    ensures
        spec_slash_fraction(1, validators_count) == 0,
{
    lemma_div_of0(validators_count as int);
    lemma_div_of0(BILLION as int);
}

/// The slash fraction is monotonically non-decreasing in the offender count,
/// for a fixed validator count.
pub proof fn lemma_slash_fraction_monotonic(offenders1: u32, offenders2: u32, validators_count: u32)
    requires
        1 <= offenders1,
        offenders1 <= offenders2,
        offenders2 <= validators_count,
    ensures
        spec_slash_fraction(offenders1, validators_count) <= spec_slash_fraction(
            offenders2,
            validators_count,
        ),
{
    let b = BILLION as int;
    let v = validators_count as int;
    lemma_mul_inequality(3 * (offenders1 - 1), 3 * (offenders2 - 1), b);
    lemma_div_is_ordered(3 * (offenders1 - 1) * b, 3 * (offenders2 - 1) * b, v);
    let base1 = spec_slash_base(offenders1, validators_count);
    let base2 = spec_slash_base(offenders2, validators_count);
    lemma_mul_inequality(base1, base2, 50_000_000);
    lemma_div_is_ordered(base1 * 50_000_000, base2 * 50_000_000, b);
}

/// The slash fraction never exceeds five percent, on every valid input.
pub proof fn lemma_slash_fraction_bounded(offenders: u32, validators_count: u32)
    requires
        1 <= offenders,
        offenders <= validators_count,
    ensures
        0 <= spec_slash_fraction(offenders, validators_count) <= 50_000_000,
{
    let b = BILLION as int;
    let v = validators_count as int;
    lemma_div_pos_is_pos(3 * (offenders - 1) * b, v);
    let base = spec_slash_base(offenders, validators_count);
    lemma_mul_inequality(base, b, 50_000_000);
    lemma_div_is_ordered(base * 50_000_000, b * 50_000_000, b);
    lemma_div_multiples_vanish(50_000_000, b);
    lemma_div_pos_is_pos(base * 50_000_000, b);
    lemma_mul_inequality(0, base, 50_000_000);
}

/// The slash fraction saturates at five percent as soon as three times the
/// excess offender count reaches the validator count.
pub proof fn lemma_slash_fraction_saturates(offenders: u32, validators_count: u32)
    requires
        1 <= offenders,
        offenders <= validators_count,
        3 * (offenders - 1) >= validators_count,
    ensures
        spec_slash_fraction(offenders, validators_count) == 50_000_000,
{
    let b = BILLION as int;
    let v = validators_count as int;
    lemma_mul_inequality(v, 3 * (offenders - 1), b);
    lemma_div_is_ordered(v * b, 3 * (offenders - 1) * b, v);
    lemma_div_multiples_vanish(b, v);
    assert(spec_slash_base(offenders, validators_count) == b);
    lemma_div_multiples_vanish(50_000_000, b);
}

} // verus!
