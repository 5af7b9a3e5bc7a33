use vstd::prelude::*;
use core::cmp::Ordering;
use crate::hand::{hand_val, hand_value, Face, Hand, MAX_HAND_LEN};

verus! {

/// A total above this busts the hand.
pub const BUST_THRESHOLD: usize = 21;

/// Where a hand stands: bust, or holding a total of at most `BUST_THRESHOLD`.
///
/// `Bust` is listed first so that the derived `Ord` puts it below every holding,
/// and holdings are ordered by their totals.
#[derive(Copy, Clone, Debug, PartialEq, Eq, Structural, Ord, Hash)]
pub enum Outcome {
    Bust,
    Holding(usize),
}

/// The outcome of a hand with the given cards.
pub open spec fn outcome_of(faces: Seq<Face>) -> Outcome {
    if hand_value(faces) > BUST_THRESHOLD {
        Outcome::Bust
    } else {
        Outcome::Holding(hand_value(faces) as usize)
    }
}

/// The showdown order: `Bust` is lowest, and holdings compare by total.
pub open spec fn outcome_cmp(a: Outcome, b: Outcome) -> Ordering {
    match (a, b) {
        (Outcome::Bust, Outcome::Bust) => Ordering::Equal,
        (Outcome::Holding(_), Outcome::Bust) => Ordering::Greater,
        (Outcome::Bust, Outcome::Holding(_)) => Ordering::Less,
        (Outcome::Holding(x), Outcome::Holding(y)) => if x < y {
            Ordering::Less
        } else if x > y {
            Ordering::Greater
        } else {
            Ordering::Equal
        },
    }
}

/// The outcome of `hand` as it stands now.
pub fn get_outcome(hand: &Hand) -> (r: Outcome)
    requires
        hand@.len() <= MAX_HAND_LEN,
    ensures
        r == outcome_of(hand@),
{
    let sum = hand_val(hand);
    if sum > BUST_THRESHOLD {
        return Outcome::Bust;
    }
    Outcome::Holding(sum)
}

impl Outcome {
    /// Compares two outcomes in showdown order.
    pub fn compare(&self, other: &Outcome) -> (r: Ordering)
        ensures
            r == outcome_cmp(*self, *other),
    {
        match (*self, *other) {
            (Outcome::Bust, Outcome::Bust) => Ordering::Equal,
            (Outcome::Holding(_), Outcome::Bust) => Ordering::Greater,
            (Outcome::Bust, Outcome::Holding(_)) => Ordering::Less,
            (Outcome::Holding(x), Outcome::Holding(y)) => if x < y {
                Ordering::Less
            } else if x > y {
                Ordering::Greater
            } else {
                Ordering::Equal
            },
        }
    }
}

impl PartialOrd for Outcome {
    fn partial_cmp(&self, other: &Outcome) -> (r: Option<Ordering>) {
        Some(self.compare(other))
    }
}

impl vstd::std_specs::cmp::PartialOrdSpecImpl for Outcome {
    open spec fn obeys_partial_cmp_spec() -> bool {
        true
    }

    open spec fn partial_cmp_spec(&self, other: &Outcome) -> Option<Ordering> {
        Some(outcome_cmp(*self, *other))
    }
}

/// The showdown order is a total order with `Bust` at the bottom: two outcomes
/// compare equal exactly when they are the same, swapping them reverses the
/// result, `Less` is transitive, and `Bust` is below every holding.
pub proof fn lemma_outcome_total_order(a: Outcome, b: Outcome, c: Outcome)
    ensures
        (outcome_cmp(a, b) == Ordering::Equal) == (a == b),
        outcome_cmp(a, b) == Ordering::Less <==> outcome_cmp(b, a) == Ordering::Greater,
        outcome_cmp(a, b) == Ordering::Less && outcome_cmp(b, c) == Ordering::Less
            ==> outcome_cmp(a, c) == Ordering::Less,
        a is Holding ==> outcome_cmp(Outcome::Bust, a) == Ordering::Less,
        outcome_cmp(Outcome::Bust, Outcome::Bust) == Ordering::Equal,
{
}

/// The outcome of a hand depends on its cards alone: asking twice about the
/// same cards gives the same answer.
pub proof fn lemma_outcome_repeatable(a: Hand, b: Hand)
    requires
        a@ == b@,
    ensures
        outcome_of(a@) == outcome_of(b@),
{
}

} // verus!
