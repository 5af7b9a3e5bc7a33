use blackjack_core::{hand_val, simulate_turn, Decision, Event, Face, Hand, Outcome, Phase, Request, Round};

fn dealt(wager: u64, dealer: [Face; 2], player: [Face; 2]) -> Round {
    let mut r = Round::new(wager);
    for f in dealer {
        assert!(r.request() == Request::CardForDealer);
        r.advance(Event::Card(f));
    }
    for f in player {
        assert!(r.request() == Request::CardForPlayer);
        r.advance(Event::Card(f));
    }
    r
}

#[test]
fn player_natural_wins_at_once() {
    let r = dealt(1000, [Face::Nine, Face::Seven], [Face::Ace, Face::King]);
    assert!(r.request() == Request::Done(600));
    let r = dealt(1000, [Face::Nine, Face::Seven], [Face::King, Face::Ace]);
    assert!(r.request() == Request::Done(600));
}

#[test]
fn both_naturals_push() {
    let r = dealt(1000, [Face::King, Face::Ace], [Face::Ace, Face::Queen]);
    assert!(r.request() == Request::Done(0));
}

#[test]
fn dealer_natural_loses_the_wager() {
    let r = dealt(1000, [Face::Ace, Face::Jack], [Face::Nine, Face::Nine]);
    assert!(r.request() == Request::Done(-1000));
}

#[test]
fn no_natural_offers_double_down() {
    let r = dealt(1000, [Face::Nine, Face::Seven], [Face::Ten, Face::Six]);
    assert!(r.request() == Request::DoubleDownAnswer);
    assert!(r.phase() == Phase::DoubleDownOffer);
}

#[test]
fn double_down_hits_once_then_dealer_busts() {
    let mut r = dealt(1000, [Face::Ten, Face::Seven], [Face::Five, Face::Six]);
    r.advance(Event::DoubleDown(true));
    assert!(r.is_doubled());
    assert!(r.request() == Request::CardForPlayer);
    r.advance(Event::Card(Face::Ten));
    assert_eq!(hand_val(r.player_hand()), 21);
    assert!(r.request() == Request::CardForDealer);
    r.advance(Event::Card(Face::Five));
    assert!(r.request() == Request::Done(1200));
}

#[test]
fn same_hand_without_double_down_wins_single() {
    let mut r = dealt(1000, [Face::Ten, Face::Seven], [Face::Five, Face::Six]);
    r.advance(Event::DoubleDown(false));
    assert!(r.request() == Request::PlayerDecision);
    r.advance(Event::Choice(Decision::Hit));
    r.advance(Event::Card(Face::Ten));
    assert!(r.request() == Request::PlayerDecision);
    r.advance(Event::Choice(Decision::Stand));
    assert!(r.request() == Request::CardForDealer);
    r.advance(Event::Card(Face::Five));
    assert!(r.request() == Request::Done(600));
}

#[test]
fn double_down_bust_loses_twice() {
    let mut r = dealt(1000, [Face::Ten, Face::Seven], [Face::Ten, Face::Six]);
    r.advance(Event::DoubleDown(true));
    r.advance(Event::Card(Face::Ten));
    assert!(r.request() == Request::Done(-2000));
}

#[test]
fn double_down_stands_after_one_card() {
    let mut r = dealt(1000, [Face::Ten, Face::Eight], [Face::Five, Face::Four]);
    r.advance(Event::DoubleDown(true));
    r.advance(Event::Card(Face::Two));
    assert_eq!(r.player_hand().len(), 3);
    assert!(r.request() == Request::Done(-2000));
}

#[test]
fn player_bust_ends_round() {
    let mut r = dealt(1000, [Face::Ten, Face::Seven], [Face::Ten, Face::Six]);
    r.advance(Event::DoubleDown(false));
    r.advance(Event::Choice(Decision::Hit));
    r.advance(Event::Card(Face::King));
    assert!(r.request() == Request::Done(-1000));
    assert_eq!(r.dealer_hand().len(), 2);
}

#[test]
fn showdown_loss_and_push() {
    let mut r = dealt(1000, [Face::Ten, Face::Eight], [Face::Ten, Face::Seven]);
    r.advance(Event::DoubleDown(false));
    r.advance(Event::Choice(Decision::Stand));
    assert!(r.request() == Request::Done(-1000));

    let mut r = dealt(1000, [Face::Ten, Face::Eight], [Face::Nine, Face::Nine]);
    r.advance(Event::DoubleDown(false));
    r.advance(Event::Choice(Decision::Stand));
    assert!(r.request() == Request::Done(0));
}

#[test]
fn dealer_stops_once_ahead_below_threshold() {
    let mut r = dealt(1000, [Face::Ten, Face::Four], [Face::Ten, Face::Five]);
    r.advance(Event::DoubleDown(false));
    r.advance(Event::Choice(Decision::Stand));
    assert!(r.request() == Request::CardForDealer);
    r.advance(Event::Card(Face::Two));
    assert_eq!(hand_val(r.dealer_hand()), 16);
    assert!(r.request() == Request::Done(-1000));
}

#[test]
fn unexpected_event_is_ignored() {
    let mut r = Round::new(500);
    r.advance(Event::Choice(Decision::Hit));
    r.advance(Event::DoubleDown(true));
    assert!(r.phase() == Phase::Dealing);
    assert!(r.request() == Request::CardForDealer);
    assert!(!r.is_doubled());
    assert_eq!(r.dealer_hand().len(), 0);
}

#[test]
fn turn_hit_appends_and_stand_keeps() {
    let mut h = Hand::from_faces(vec![Face::Ten, Face::Five]);
    assert!(simulate_turn(&mut h, Decision::Stand, None) == Outcome::Holding(15));
    assert_eq!(h.len(), 2);
    assert!(simulate_turn(&mut h, Decision::Hit, Some(Face::Ace)) == Outcome::Holding(16));
    assert_eq!(h.cards(), &[Face::Ten, Face::Five, Face::Ace]);
    assert!(simulate_turn(&mut h, Decision::Hit, Some(Face::Nine)) == Outcome::Bust);
}
