use vstd::prelude::*;

verus! {

/// The number of standard 52-card decks merged into a fresh shoe.
pub const STANDARD_NUM_DECKS: usize = 4;
/// The shoe is replaced once `DECK_REPLACEMENT_NUMERATOR / DECK_REPLACEMENT_DENOMINATOR`
/// of its cards have been dealt.
pub const DECK_REPLACEMENT_NUMERATOR: usize = 1;
pub const DECK_REPLACEMENT_DENOMINATOR: usize = 2;

/// Whether a shoe with `dealt` cards dealt and `undealt` left has reached the
/// replacement threshold.
pub open spec fn needs_replacement(dealt: int, undealt: int) -> bool {
    dealt * DECK_REPLACEMENT_DENOMINATOR >= DECK_REPLACEMENT_NUMERATOR * (dealt + undealt)
}

/// Decides, before a round, whether the shoe must be discarded for a fresh one.
pub fn should_replace(dealt: usize, undealt: usize) -> (r: bool)
    ensures
        r == needs_replacement(dealt as int, undealt as int),
        r == (dealt >= undealt),
{
    let d = dealt as u128;
    let total = d + undealt as u128;
    assert(d <= 0xffff_ffff_ffff_ffff && total <= 0x1_ffff_ffff_ffff_fffe);
    let den: u128 = DECK_REPLACEMENT_DENOMINATOR as u128;
    let num: u128 = DECK_REPLACEMENT_NUMERATOR as u128;
    assert(den == 2 && num == 1);
    d * den >= num * total
}

} // verus!
