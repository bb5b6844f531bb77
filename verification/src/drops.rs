//! Loot-rate arithmetic.
use vstd::prelude::*;

verus! {

/// The drop chance denominator after a killer's item-drop rate bonus: a
/// positive `rate_percent` removes that percentage of the denominator
/// (integer division), never going below one; a rate of zero or less
/// leaves the denominator unchanged.
pub open spec fn spec_adjusted_drop_denominator(denominator: u32, rate_percent: i32) -> int {
    if rate_percent <= 0 {
        denominator as int
    } else {
        let reduced = denominator as int - (denominator as int * rate_percent as int) / 100;
        if reduced < 1 {
            1
        } else {
            reduced
        }
    }
}

/// Crystal's integer reduction of a 1-in-`denominator` drop chance by the
/// owner's item-drop rate bonus.
pub fn crystal_adjusted_drop_denominator(denominator: u32, rate_percent: i32) -> (r: u32)
    ensures
        r == spec_adjusted_drop_denominator(denominator, rate_percent),
{
    if rate_percent <= 0 {
        return denominator;
    }
    assert(denominator as int * rate_percent as int <= 0xffff_ffff * 0x7fff_ffff) by (nonlinear_arith)
        requires
            denominator <= 0xffff_ffff,
            0 < rate_percent <= 0x7fff_ffff,
    ;
    let product: u64 = denominator as u64 * rate_percent as u64;
    let reduction: u64 = product / 100;
    if reduction >= denominator as u64 {
        1
    } else {
        let reduced = denominator as u64 - reduction;
        if reduced < 1 {
            1
        } else {
            reduced as u32
        }
    }
}

/// A positive bonus never makes a drop rarer, and every adjusted chance
/// remains a real 1-in-n chance.
pub proof fn lemma_adjusted_denominator_bounds(denominator: u32, rate_percent: i32)
    requires
        denominator >= 1,
    ensures
        1 <= spec_adjusted_drop_denominator(denominator, rate_percent) <= denominator,
{
    if rate_percent > 0 {
        assert(denominator as int * rate_percent as int >= 0) by (nonlinear_arith)
            requires
                denominator >= 1,
                rate_percent > 0,
        ;
    }
}

/// How a positive bonus reduces a 1-in-`denominator` chance: the
/// denominator loses exactly the whole part of `rate_percent` percent of
/// itself (`100 * lost <= denominator * rate_percent < 100 * (lost + 1)`)
/// unless that would leave less than one, when it becomes one. So a bonus
/// worth at least one whole step strictly lowers a denominator above one, a
/// bonus of 100% or more leaves a 1-in-1 chance, a larger bonus never
/// leaves a larger denominator, and no bonus leaves it as it was.
pub proof fn lemma_adjusted_denominator_laws(denominator: u32, rate_percent: i32, larger: i32)
    requires
        denominator >= 1,
    ensures
        rate_percent <= 0 ==> spec_adjusted_drop_denominator(denominator, rate_percent) == denominator,
        rate_percent > 0 && spec_adjusted_drop_denominator(denominator, rate_percent) > 1 ==> {
            let lost = denominator - spec_adjusted_drop_denominator(denominator, rate_percent);
            100 * lost <= denominator * rate_percent < 100 * (lost + 1)
        },
        rate_percent > 0 && spec_adjusted_drop_denominator(denominator, rate_percent) == 1 ==> denominator * rate_percent
            >= 100 * (denominator - 1),
        rate_percent > 0 && denominator > 1 && denominator * rate_percent >= 100 ==> spec_adjusted_drop_denominator(
            denominator,
            rate_percent,
        ) < denominator,
        rate_percent >= 100 ==> spec_adjusted_drop_denominator(denominator, rate_percent) == 1,
        rate_percent <= larger ==> spec_adjusted_drop_denominator(denominator, larger)
            <= spec_adjusted_drop_denominator(denominator, rate_percent),
{
    let d = denominator as int;
    if rate_percent > 0 {
        let p = d * rate_percent;
        assert(p >= 0) by (nonlinear_arith)
            requires d >= 1, rate_percent > 0, p == d * rate_percent;
        assert(100 * (p / 100) <= p < 100 * (p / 100 + 1)) by (nonlinear_arith)
            requires p >= 0;
        if rate_percent >= 100 {
            assert(p >= 100 * d) by (nonlinear_arith)
                requires d >= 1, rate_percent >= 100, p == d * rate_percent;
        }
    }
    if rate_percent <= larger && larger > 0 {
        let pl = d * larger;
        assert(pl >= 0) by (nonlinear_arith)
            requires d >= 1, larger > 0, pl == d * larger;
        if rate_percent > 0 {
            let p = d * rate_percent;
            assert(p <= pl) by (nonlinear_arith)
                requires d >= 1, rate_percent <= larger, p == d * rate_percent, pl == d * larger;
            vstd::arithmetic::div_mod::lemma_div_is_ordered(p, pl, 100);
        }
        lemma_adjusted_denominator_bounds(denominator, rate_percent);
    }
}

} // verus!
