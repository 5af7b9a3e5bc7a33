use vstd::prelude::*;
use vstd::arithmetic::div_mod::lemma_hoist_over_denominator;

verus! {

/// The largest wager, in cents, whose doubled loss still fits an `i64`.
pub const MAX_WAGER_CENTS: u64 = 0x3fff_ffff_ffff_ffff;
/// A win pays this many percent of the wager.
pub const WIN_PERCENT: u64 = 60;
/// Doubling down multiplies the wager's effect by this factor.
pub const DOUBLE_DOWN_MULTIPLIER: u64 = 2;

/// How a round ended for the player.
#[derive(Copy, Clone, Debug, PartialEq, Eq, Structural, Hash)]
pub enum Verdict {
    Win,
    Loss,
    Push,
}

/// The factor that applies to the wager: doubled after a double down.
pub open spec fn multiplier(doubled: bool) -> int {
    if doubled {
        DOUBLE_DOWN_MULTIPLIER as int
    } else {
        1
    }
}

/// `n / d` rounded to the nearest integer, halves away from zero, for `n >= 0`.
pub open spec fn round_div(n: int, d: int) -> int {
    (2 * n + d) / (2 * d)
}

/// The change to the player's balance, in cents, for a wager of `wager` cents:
/// a win pays `WIN_PERCENT` percent of the multiplied wager, rounded to the cent;
/// a loss takes the multiplied wager; a push changes nothing.
pub open spec fn settlement(wager: int, verdict: Verdict, doubled: bool) -> int {
    match verdict {
        Verdict::Win => round_div(wager * WIN_PERCENT * multiplier(doubled), 100),
        Verdict::Loss => -(wager * multiplier(doubled)),
        Verdict::Push => 0,
    }
}

/// Settles a wager of `wager` cents, rounding to the cent at this point.
pub fn settle(wager: u64, verdict: Verdict, doubled: bool) -> (r: i64)
    requires
        wager <= MAX_WAGER_CENTS,
    ensures
        r == settlement(wager as int, verdict, doubled),
{
    let m: u64 = if doubled { DOUBLE_DOWN_MULTIPLIER } else { 1 };
    match verdict {
        Verdict::Win => {
            let scaled: u128 = (wager as u128) * (WIN_PERCENT as u128) * (m as u128);
            assert(scaled <= 120 * MAX_WAGER_CENTS) by (nonlinear_arith)
                requires
                    scaled == wager * 60 * m,
                    wager <= MAX_WAGER_CENTS,
                    m <= 2,
            ;
            let q: u128 = (2 * scaled + 100) / 200;
            assert(q <= scaled) by (nonlinear_arith)
                requires
                    q == (2 * scaled + 100) / 200,
                    scaled >= 0,
            ;
            q as i64
        },
        Verdict::Loss => {
            let lost: u64 = wager * m;
            -(lost as i64)
        },
        Verdict::Push => 0,
    }
}

/// Doubling down doubles a loss exactly, and doubles a win exactly whenever
/// the wager in cents leaves a remainder of 0, 2 or 3 on division by five (for
/// the other wagers the doubled win is rounded once, not twice).
pub proof fn lemma_double_down_doubles(wager: int, verdict: Verdict)
    requires
        0 <= wager,
        verdict == Verdict::Win ==> (wager % 5 == 0 || wager % 5 == 2 || wager % 5 == 3),
    ensures
        settlement(wager, verdict, true) == 2 * settlement(wager, verdict, false),
{
    if verdict == Verdict::Win {
        let q = wager / 5;
        let r = wager % 5;
        let single = (2 * (wager * 60 * 1) + 100) / 200;
        let double = (2 * (wager * 60 * 2) + 100) / 200;
        assert(settlement(wager, verdict, false) == single);
        assert(settlement(wager, verdict, true) == double);
        assert(2 * (wager * 60 * 1) + 100 == (120 * r + 100) + (3 * q) * 200) by (nonlinear_arith)
            requires
                wager == 5 * q + r,
        ;
        assert(2 * (wager * 60 * 2) + 100 == (240 * r + 100) + (6 * q) * 200) by (nonlinear_arith)
            requires
                wager == 5 * q + r,
        ;
        lemma_hoist_over_denominator(120 * r + 100, 3 * q, 200);
        lemma_hoist_over_denominator(240 * r + 100, 6 * q, 200);
        assert(single == (120 * r + 100) / 200 + 3 * q);
        assert(double == (240 * r + 100) / 200 + 6 * q);
        assert((240 * r + 100) / 200 == 2 * ((120 * r + 100) / 200)) by {
            if r == 0 {
                assert(100int / 200 == 0);
            } else if r == 2 {
                assert(340int / 200 == 1);
                assert(580int / 200 == 2);
            } else {
                assert(460int / 200 == 2);
                assert(820int / 200 == 4);
            }
        }
    } else {
        assert(multiplier(true) == 2 && multiplier(false) == 1);
    }
}

} // verus!
