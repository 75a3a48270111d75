//! Mutation: the rate at which it strikes, and the one bit that it flips.
use crate::gene::{one_bit_apart, Gene};
use crate::random::random_below;
use crate::TimeT;
use vstd::prelude::*;

verus! {

/// The rate that stands for certainty: rates are counted in millionths.
pub const MUTATION_SCALE: u32 = 1_000_000;

/// The millionths in one percent.
pub const MILLIONTHS_PER_PERCENT: u32 = 10_000;

/// The chance that a gene, or an oscillator period, mutates when it is
/// handed on: a number of millionths from none to all of them.
#[derive(Debug, Clone, Copy)]
pub struct MutR {
    millionths: u32,
}

/// Whether `a` and `b` differ in exactly one of their low 32 bits.
pub open spec fn one_low_bit_apart(a: TimeT, b: TimeT) -> bool {
    exists|k: u32| k < 32 && b == a ^ (1usize << k)
}

/// Whether `child` can come from `parent` at the given rate: it is the
/// parent's value or one bit away from it, the first for certain where
/// nothing mutates and the second for certain where everything does.
pub open spec fn gene_inherited(child: Gene, parent: Gene, rate: MutR) -> bool {
    &&& child == parent || one_bit_apart(parent.bits, child.bits)
    &&& rate.never() ==> child == parent
    &&& rate.always() ==> one_bit_apart(parent.bits, child.bits)
}

/// Whether `child` can come from the period `parent` at the given rate, in
/// the same sense as for a gene.
pub open spec fn period_inherited(child: TimeT, parent: TimeT, rate: MutR) -> bool {
    &&& child == parent || one_low_bit_apart(parent, child)
    &&& rate.never() ==> child == parent
    &&& rate.always() ==> one_low_bit_apart(parent, child)
}

impl MutR {
    #[verifier::type_invariant]
    spec fn in_scale(self) -> bool {
        self.millionths <= MUTATION_SCALE
    }

    /// The rate in millionths.
    pub closed spec fn millionths(self) -> nat {
        self.millionths as nat
    }

    /// Whether nothing ever mutates at this rate.
    pub open spec fn never(self) -> bool {
        self.millionths() == 0
    }

    /// Whether everything mutates at this rate.
    pub open spec fn always(self) -> bool {
        self.millionths() == MUTATION_SCALE
    }

    /// The rate of so many millionths, if they are no more than a million.
    pub fn from_millionths(millionths: u32) -> (r: Option<MutR>)
        ensures
            r.is_some() <==> millionths <= MUTATION_SCALE,
            r.is_some() ==> r.unwrap().millionths() == millionths,
    {
        if millionths <= MUTATION_SCALE {
            Some(MutR { millionths })
        } else {
            None
        }
    }

    /// The rate of so many percent, if they are no more than a hundred.
    pub fn from_percent(percent: u32) -> (r: Option<MutR>)
        ensures
            r.is_some() <==> percent <= 100,
            r.is_some() ==> r.unwrap().millionths() == percent * MILLIONTHS_PER_PERCENT,
    {
        if percent <= 100 {
            Some(MutR { millionths: percent * MILLIONTHS_PER_PERCENT })
        } else {
            None
        }
    }

    pub fn get_millionths(&self) -> (r: u32)
        ensures
            r == self.millionths(),
            r <= MUTATION_SCALE,
    {
        proof {
            use_type_invariant(self);
        }
        self.millionths
    }

    /// Whether a draw of `roll` out of a million calls for a mutation: the
    /// rolls below the rate do.
    pub fn hits(&self, roll: u32) -> (r: bool)
        ensures
            r == (roll < self.millionths()),
    {
        roll < self.millionths
    }
}

/// The period with one of its low 32 bits flipped. Of `bit` only the low
/// five bits count.
pub fn flip_period_bit(period: TimeT, bit: u32) -> (r: TimeT)
    ensures
        r == period ^ (1usize << (bit & 31)),
        bit < 32 ==> r == period ^ (1usize << bit),
        one_low_bit_apart(period, r),
{
    assert(bit & 31 < 32 && (bit < 32 ==> bit & 31 == bit)) by (bit_vector);
    period ^ (1usize << (bit & 31))
}

/// What is handed on of a gene for one pair of draws: the rolls below the
/// rate flip the bit that `bit` names by its low five bits, the others
/// leave the gene as it is.
pub open spec fn gene_handed_on(gene: Gene, rate: MutR, roll: u32, bit: u32) -> Gene {
    if roll < rate.millionths() {
        Gene { bits: gene.bits ^ (1u32 << (bit & 31)) }
    } else {
        gene
    }
}

/// What is handed on of an oscillator period for one pair of draws, in the
/// same way.
pub open spec fn period_handed_on(period: TimeT, rate: MutR, roll: u32, bit: u32) -> TimeT {
    if roll < rate.millionths() {
        period ^ (1usize << (bit & 31))
    } else {
        period
    }
}

/// Hands a gene on for a roll out of a million and the number of a bit.
/// For every roll below a million the result is the gene or one bit away
/// from it, as the rate allows.
pub fn hand_on_gene(gene: Gene, rate: MutR, roll: u32, bit: u32) -> (r: Gene)
    ensures
        r == gene_handed_on(gene, rate, roll, bit),
        roll < MUTATION_SCALE ==> gene_inherited(r, gene, rate),
{
    if rate.hits(roll) {
        gene.flip_bit(bit)
    } else {
        gene
    }
}

/// Hands an oscillator period on for a roll out of a million and the number
/// of a bit.
pub fn hand_on_period(period: TimeT, rate: MutR, roll: u32, bit: u32) -> (r: TimeT)
    ensures
        r == period_handed_on(period, rate, roll, bit),
        roll < MUTATION_SCALE ==> period_inherited(r, period, rate),
{
    if rate.hits(roll) {
        flip_period_bit(period, bit)
    } else {
        period
    }
}

/// The period that a child starts from: that of the first parent where the
/// coin says so, else that of the second.
pub fn cross_period(coin: bool, first: TimeT, second: TimeT) -> (r: TimeT)
    ensures
        r == if coin {
            first
        } else {
            second
        },
{
    if coin {
        first
    } else {
        second
    }
}

/// Hands a gene on with a roll and a bit drawn at random: with the chance
/// that the rate gives, one bit of the gene is flipped.
pub fn mutate_gene(gene: Gene, rate: MutR) -> (r: Gene)
    ensures
        gene_inherited(r, gene, rate),
{
    let roll: u32 = random_below(MUTATION_SCALE);
    let bit: u32 = random_below(32);
    hand_on_gene(gene, rate, roll, bit)
}

/// Hands an oscillator period on with a roll and a bit drawn at random:
/// with the chance that the rate gives, one of its low 32 bits is flipped.
pub fn mutate_period(period: TimeT, rate: MutR) -> (r: TimeT)
    ensures
        period_inherited(r, period, rate),
{
    let roll: u32 = random_below(MUTATION_SCALE);
    let bit: u32 = random_below(32);
    hand_on_period(period, rate, roll, bit)
}

} // verus!
