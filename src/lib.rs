//! A single-player blackjack round engine: hand scoring with soft aces, the
//! showdown order of outcomes, the dealer's policy, the double down, wager
//! settlement in cents and the shoe replacement policy, all with proved contracts.

pub mod decision;
pub mod hand;
pub mod money;
pub mod outcome;
pub mod round;
pub mod shoe;

pub use decision::{prompt_dealer, Decision, DEALER_STAND_THRESHOLD};
pub use hand::{face_val, hand_val, Face, Hand, MAX_HAND_LEN};
pub use money::{settle, Verdict, DOUBLE_DOWN_MULTIPLIER, MAX_WAGER_CENTS, WIN_PERCENT};
pub use outcome::{get_outcome, Outcome, BUST_THRESHOLD};
pub use round::{simulate_turn, Event, Phase, Request, Round};
pub use shoe::{should_replace, STANDARD_NUM_DECKS};
