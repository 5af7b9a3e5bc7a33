use vstd::prelude::*;
use core::cmp::Ordering;
use crate::decision::{dealer_decision, prompt_dealer, Decision, DEALER_STAND_THRESHOLD};
use crate::hand::{
    hand_val, MAX_HAND_LEN, hand_value, lemma_hand_value_bounds, lemma_two_cards_order_independent, Face, Hand,
};
use crate::money::{multiplier, round_div, settle, settlement, Verdict, MAX_WAGER_CENTS};
use crate::outcome::{get_outcome, outcome_cmp, outcome_of, Outcome, BUST_THRESHOLD};

verus! {

/// The most cards either hand can hold during a round.
pub const MAX_ROUND_CARDS: usize = 22;

/// Where a round stands, and what it waits for.
#[derive(Copy, Clone, Debug, PartialEq, Eq, Structural, Hash)]
pub enum Phase {
    /// Two cards go to the dealer, then two to the player.
    Dealing,
    /// The player is asked once whether to double down.
    DoubleDownOffer,
    /// The player chooses to hit or stand.
    PlayerTurn,
    /// The player hit and waits for the card.
    PlayerDraw,
    /// The player doubled down and waits for the one forced card.
    DoubleDownDraw,
    /// The dealer hit and waits for the card.
    DealerDraw,
    /// The round is over; the player's balance changes by this many cents.
    Settled(i64),
}

/// What the caller hands the round.
#[derive(Copy, Clone, Debug, PartialEq, Eq, Structural, Hash)]
pub enum Event {
    /// The next card off the shoe.
    Card(Face),
    /// The player's answer to the double-down offer.
    DoubleDown(bool),
    /// The player's choice on a turn.
    Choice(Decision),
}

/// What the round needs from the caller next.
#[derive(Copy, Clone, Debug, PartialEq, Eq, Structural, Hash)]
pub enum Request {
    CardForDealer,
    CardForPlayer,
    DoubleDownAnswer,
    PlayerDecision,
    Done(i64),
}

/// The mathematical state of a round.
pub ghost struct RoundState {
    pub wager: int,
    pub player: Seq<Face>,
    pub dealer: Seq<Face>,
    pub doubled: bool,
    pub phase: Phase,
}

/// The states that a round can reach.
pub open spec fn round_wf(s: RoundState) -> bool {
    &&& 0 <= s.wager <= MAX_WAGER_CENTS
    &&& s.player.len() <= MAX_ROUND_CARDS
    &&& s.dealer.len() <= MAX_ROUND_CARDS
    &&& s.phase is Dealing ==> {
        &&& s.dealer.len() <= 2
        &&& s.player.len() < 2
        &&& s.dealer.len() < 2 ==> s.player.len() == 0
        &&& !s.doubled
    }
    &&& (s.phase is DoubleDownOffer || s.phase is PlayerTurn || s.phase is PlayerDraw
        || s.phase is DoubleDownDraw) ==> hand_value(s.player) <= BUST_THRESHOLD
    &&& (s.phase is DoubleDownOffer || s.phase is PlayerTurn || s.phase is PlayerDraw)
        ==> !s.doubled
    &&& s.phase is DoubleDownDraw ==> s.doubled
    &&& s.phase is DealerDraw ==> {
        &&& hand_value(s.player) <= BUST_THRESHOLD
        &&& dealer_decision(hand_value(s.dealer), hand_value(s.player)) == Decision::Hit
    }
}

/// The request that a round in state `s` makes of its caller.
pub open spec fn request_of(s: RoundState) -> Request {
    match s.phase {
        Phase::Dealing => if s.dealer.len() < 2 {
            Request::CardForDealer
        } else {
            Request::CardForPlayer
        },
        Phase::DoubleDownOffer => Request::DoubleDownAnswer,
        Phase::PlayerTurn => Request::PlayerDecision,
        Phase::PlayerDraw | Phase::DoubleDownDraw => Request::CardForPlayer,
        Phase::DealerDraw => Request::CardForDealer,
        Phase::Settled(delta) => Request::Done(delta),
    }
}

/// `s` ended with the given verdict.
pub open spec fn settled(s: RoundState, verdict: Verdict) -> RoundState {
    RoundState { phase: Phase::Settled(settlement(s.wager, verdict, s.doubled) as i64), ..s }
}

/// After the initial deal: a natural for both is a push, for one side alone
/// it settles the round at once, and otherwise the player is offered a double down.
pub open spec fn natural_check(s: RoundState) -> RoundState {
    let p = hand_value(s.player) == 21;
    let d = hand_value(s.dealer) == 21;
    if p && d {
        settled(s, Verdict::Push)
    } else if p {
        settled(s, Verdict::Win)
    } else if d {
        settled(s, Verdict::Loss)
    } else {
        RoundState { phase: Phase::DoubleDownOffer, ..s }
    }
}

/// The verdict of comparing the two final hands.
pub open spec fn showdown(player: Seq<Face>, dealer: Seq<Face>) -> Verdict {
    match outcome_cmp(outcome_of(player), outcome_of(dealer)) {
        Ordering::Greater => Verdict::Win,
        Ordering::Less => Verdict::Loss,
        Ordering::Equal => Verdict::Push,
    }
}

/// The dealer consults its policy: it hits, or stands and the hands are compared.
pub open spec fn dealer_turn(s: RoundState) -> RoundState {
    if dealer_decision(hand_value(s.dealer), hand_value(s.player)) == Decision::Hit {
        RoundState { phase: Phase::DealerDraw, ..s }
    } else {
        settled(s, showdown(s.player, s.dealer))
    }
}

/// The state that follows `s` on `event`. An event that the phase does not wait
/// for leaves the state as it is.
pub open spec fn step(s: RoundState, event: Event) -> RoundState {
    match (s.phase, event) {
        (Phase::Dealing, Event::Card(f)) => if s.dealer.len() < 2 {
            RoundState { dealer: s.dealer.push(f), ..s }
        } else if s.player.len() == 0 {
            RoundState { player: s.player.push(f), ..s }
        } else {
            natural_check(RoundState { player: s.player.push(f), ..s })
        },
        (Phase::DoubleDownOffer, Event::DoubleDown(yes)) => if yes {
            RoundState { doubled: true, phase: Phase::DoubleDownDraw, ..s }
        } else {
            RoundState { phase: Phase::PlayerTurn, ..s }
        },
        (Phase::PlayerTurn, Event::Choice(Decision::Hit)) => RoundState {
            phase: Phase::PlayerDraw,
            ..s
        },
        (Phase::PlayerTurn, Event::Choice(Decision::Stand)) => dealer_turn(s),
        (Phase::PlayerDraw, Event::Card(f)) => {
            let t = RoundState { player: s.player.push(f), ..s };
            if outcome_of(t.player) is Bust {
                settled(t, Verdict::Loss)
            } else {
                RoundState { phase: Phase::PlayerTurn, ..t }
            }
        },
        (Phase::DoubleDownDraw, Event::Card(f)) => {
            let t = RoundState { player: s.player.push(f), ..s };
            if outcome_of(t.player) is Bust {
                settled(t, Verdict::Loss)
            } else {
                dealer_turn(t)
            }
        },
        (Phase::DealerDraw, Event::Card(f)) => {
            let t = RoundState { dealer: s.dealer.push(f), ..s };
            if outcome_of(t.dealer) is Bust {
                settled(t, Verdict::Win)
            } else {
                dealer_turn(t)
            }
        },
        _ => s,
    }
}

/// Applies one decision to `hand`: a hit appends `card`, a stand leaves the hand
/// as it is. Returns the hand's outcome afterwards.
pub fn simulate_turn(hand: &mut Hand, decision: Decision, card: Option<Face>) -> (r: Outcome)
    requires
        old(hand)@.len() < MAX_HAND_LEN,
        decision == Decision::Hit ==> card is Some,
    ensures
        decision == Decision::Hit ==> final(hand)@ == old(hand)@.push(card->0),
        decision == Decision::Stand ==> final(hand)@ == old(hand)@,
        r == outcome_of(final(hand)@),
{
    match (decision, card) {
        (Decision::Hit, Some(f)) => hand.push_card(f),
        _ => {},
    }
    get_outcome(hand)
}

/// One round of play against the dealer, driven by the events its caller hands it.
pub struct Round {
    wager: u64,
    player: Hand,
    dealer: Hand,
    doubled: bool,
    phase: Phase,
}

impl View for Round {
    type V = RoundState;

    closed spec fn view(&self) -> RoundState {
        RoundState {
            wager: self.wager as int,
            player: self.player@,
            dealer: self.dealer@,
            doubled: self.doubled,
            phase: self.phase,
        }
    }
}

impl Round {
    /// The well-formedness of a round: the states that play can reach.
    pub open spec fn wf(&self) -> bool {
        round_wf(self@)
    }

    /// A round with empty hands and the given wager, in cents, about to be dealt.
    pub fn new(wager: u64) -> (r: Round)
        requires
            wager <= MAX_WAGER_CENTS,
        ensures
            r.wf(),
            r@ == (RoundState {
                wager: wager as int,
                player: Seq::empty(),
                dealer: Seq::empty(),
                doubled: false,
                phase: Phase::Dealing,
            }),
    {
        Round { wager, player: Hand::new(), dealer: Hand::new(), doubled: false, phase: Phase::Dealing }
    }

    /// What the round waits for.
    pub fn request(&self) -> (r: Request)
        ensures
            r == request_of(self@),
    {
        match self.phase {
            Phase::Dealing => if self.dealer.len() < 2 {
                Request::CardForDealer
            } else {
                Request::CardForPlayer
            },
            Phase::DoubleDownOffer => Request::DoubleDownAnswer,
            Phase::PlayerTurn => Request::PlayerDecision,
            Phase::PlayerDraw | Phase::DoubleDownDraw => Request::CardForPlayer,
            Phase::DealerDraw => Request::CardForDealer,
            Phase::Settled(delta) => Request::Done(delta),
        }
    }

    pub fn phase(&self) -> (r: Phase)
        ensures
            r == self@.phase,
    {
        self.phase
    }

    pub fn player_hand(&self) -> (r: &Hand)
        ensures
            r@ == self@.player,
    {
        &self.player
    }

    pub fn dealer_hand(&self) -> (r: &Hand)
        ensures
            r@ == self@.dealer,
    {
        &self.dealer
    }

    pub fn is_doubled(&self) -> (r: bool)
        ensures
            r == self@.doubled,
    {
        self.doubled
    }

    fn finish(&mut self, verdict: Verdict)
        requires
            old(self)@.wager <= MAX_WAGER_CENTS,
        ensures
            final(self)@ == settled(old(self)@, verdict),
    {
        let delta = settle(self.wager, verdict, self.doubled);
        self.phase = Phase::Settled(delta);
    }

    fn run_dealer_turn(&mut self)
        requires
            old(self)@.wager <= MAX_WAGER_CENTS,
            old(self)@.player.len() <= MAX_ROUND_CARDS,
            old(self)@.dealer.len() <= MAX_ROUND_CARDS,
        ensures
            final(self)@ == dealer_turn(old(self)@),
    {
        let score_to_beat = hand_val(&self.player);
        if prompt_dealer(&self.dealer, score_to_beat) == Decision::Hit {
            self.phase = Phase::DealerDraw;
        } else {
            let p = get_outcome(&self.player);
            let d = get_outcome(&self.dealer);
            let verdict = match p.compare(&d) {
                Ordering::Greater => Verdict::Win,
                Ordering::Less => Verdict::Loss,
                Ordering::Equal => Verdict::Push,
            };
            self.finish(verdict);
        }
    }

    /// Hands the round one event and moves it on to the next state.
    pub fn advance(&mut self, event: Event)
        requires
            old(self).wf(),
        ensures
            final(self).wf(),
            final(self)@ == step(old(self)@, event),
    {
        proof {
            lemma_hand_value_bounds(self.player@);
            lemma_hand_value_bounds(self.dealer@);
        }
        match (self.phase, event) {
            (Phase::Dealing, Event::Card(f)) => {
                if self.dealer.len() < 2 {
                    self.dealer.push_card(f);
                } else if self.player.len() == 0 {
                    self.player.push_card(f);
                } else {
                    self.player.push_card(f);
                    proof {
                        assert(self.player@ =~= seq![self.player@[0], f]);
                        lemma_two_cards_order_independent(self.player@[0], f);
                    }
                    let p = hand_val(&self.player) == 21;
                    let d = hand_val(&self.dealer) == 21;
                    if p && d {
                        self.finish(Verdict::Push);
                    } else if p {
                        self.finish(Verdict::Win);
                    } else if d {
                        self.finish(Verdict::Loss);
                    } else {
                        self.phase = Phase::DoubleDownOffer;
                    }
                }
            },
            (Phase::DoubleDownOffer, Event::DoubleDown(yes)) => {
                if yes {
                    self.doubled = true;
                    self.phase = Phase::DoubleDownDraw;
                } else {
                    self.phase = Phase::PlayerTurn;
                }
            },
            (Phase::PlayerTurn, Event::Choice(Decision::Hit)) => {
                self.phase = Phase::PlayerDraw;
            },
            (Phase::PlayerTurn, Event::Choice(Decision::Stand)) => {
                self.run_dealer_turn();
            },
            (Phase::PlayerDraw, Event::Card(f)) => {
                if simulate_turn(&mut self.player, Decision::Hit, Some(f)) == Outcome::Bust {
                    self.finish(Verdict::Loss);
                } else {
                    self.phase = Phase::PlayerTurn;
                }
            },
            (Phase::DoubleDownDraw, Event::Card(f)) => {
                if simulate_turn(&mut self.player, Decision::Hit, Some(f)) == Outcome::Bust {
                    self.finish(Verdict::Loss);
                } else {
                    self.run_dealer_turn();
                }
            },
            (Phase::DealerDraw, Event::Card(f)) => {
                if simulate_turn(&mut self.dealer, Decision::Hit, Some(f)) == Outcome::Bust {
                    self.finish(Verdict::Win);
                } else {
                    self.run_dealer_turn();
                }
            },
            _ => {},
        }
        proof {
            lemma_hand_value_bounds(self.player@);
            lemma_hand_value_bounds(self.dealer@);
        }
    }
}

/// The natural check after the fourth card: both naturals push, a player
/// natural alone pays the win rate at once, a dealer natural alone takes the
/// wager, and otherwise play goes on to the double-down offer.
pub proof fn lemma_natural_check(s: RoundState, f: Face)
    requires
        round_wf(s),
        s.phase is Dealing,
        s.dealer.len() == 2,
        s.player.len() == 1,
    ensures
        ({
            let t = step(s, Event::Card(f));
            let p = hand_value(t.player) == 21;
            let d = hand_value(t.dealer) == 21;
            &&& t.player == s.player.push(f)
            &&& t.dealer == s.dealer
            &&& p && d ==> t.phase == Phase::Settled(0)
            &&& p && !d ==> t.phase == Phase::Settled(round_div(s.wager * 60, 100) as i64)
            &&& !p && d ==> t.phase == Phase::Settled((-s.wager) as i64)
            &&& !p && !d ==> t.phase == Phase::DoubleDownOffer
        }),
{
    assert(multiplier(false) == 1);
}

/// Doubling down forces exactly one card: a bust then loses twice the wager,
/// and otherwise the player stands at once and the dealer plays; the player's
/// hand never changes again.
pub proof fn lemma_double_down_forced(s: RoundState, f: Face, e: Event)
    requires
        round_wf(s),
        s.phase is DoubleDownOffer,
    ensures
        ({
            let t = step(s, Event::DoubleDown(true));
            let u = step(t, Event::Card(f));
            &&& t.phase is DoubleDownDraw
            &&& t.player == s.player
            &&& u.player == s.player.push(f)
            &&& u.doubled
            &&& u.phase is Settled || u.phase is DealerDraw
            &&& outcome_of(u.player) is Bust ==> u.phase == Phase::Settled((-2 * s.wager) as i64)
            &&& step(u, e).player == u.player
            &&& step(u, e).phase is Settled || step(u, e).phase is DealerDraw
        }),
{
    assert(multiplier(true) == 2);
}

/// The dealer is never asked to draw once its total reaches
/// `DEALER_STAND_THRESHOLD`, nor once it exceeds the player's final total.
pub proof fn lemma_dealer_never_hits_when_done(s: RoundState, e: Event)
    requires
        round_wf(s),
    ensures
        step(s, e).phase is DealerDraw ==> {
            &&& hand_value(step(s, e).dealer) < DEALER_STAND_THRESHOLD
            &&& hand_value(step(s, e).dealer) <= hand_value(step(s, e).player)
        },
{
}

} // verus!
