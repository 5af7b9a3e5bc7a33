use vstd::prelude::*;
use crate::hand::{hand_val, hand_value, Hand, MAX_HAND_LEN};

verus! {

/// The dealer stands once its total reaches this value.
pub const DEALER_STAND_THRESHOLD: usize = 18;

/// One step of a turn: take another card, or stop.
#[derive(Copy, Clone, Debug, PartialEq, Eq, Structural, Hash)]
pub enum Decision {
    Hit,
    Stand,
}

/// The dealer's fixed policy: stand at `DEALER_STAND_THRESHOLD` or above, or once
/// ahead of the player's final total; hit otherwise.
pub open spec fn dealer_decision(total: int, score_to_beat: int) -> Decision {
    if total >= DEALER_STAND_THRESHOLD || total > score_to_beat {
        Decision::Stand
    } else {
        Decision::Hit
    }
}

/// The dealer's next move with `hand`, against a player whose final total is
/// `score_to_beat`.
pub fn prompt_dealer(hand: &Hand, score_to_beat: usize) -> (r: Decision)
    requires
        hand@.len() <= MAX_HAND_LEN,
    ensures
        r == dealer_decision(hand_value(hand@), score_to_beat as int),
        hand_value(hand@) >= DEALER_STAND_THRESHOLD ==> r == Decision::Stand,
        hand_value(hand@) > score_to_beat ==> r == Decision::Stand,
{
    let sum = hand_val(hand);
    if sum >= DEALER_STAND_THRESHOLD || sum > score_to_beat {
        return Decision::Stand;
    }
    Decision::Hit
}

} // verus!
