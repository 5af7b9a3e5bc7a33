use std::cmp::Ordering;

use blackjack_core::{face_val, get_outcome, hand_val, prompt_dealer, settle, should_replace};
use blackjack_core::{Decision, Face, Hand, Outcome, Verdict};

fn hand(faces: &[Face]) -> Hand {
    Hand::from_faces(faces.to_vec())
}

#[test]
fn ace_king_is_twenty_one() {
    assert_eq!(hand_val(&hand(&[Face::Ace, Face::King])), 21);
}

#[test]
fn two_aces_and_nine_demote_one_ace() {
    assert_eq!(hand_val(&hand(&[Face::Ace, Face::Ace, Face::Nine])), 21);
}

#[test]
fn three_aces_and_eight_make_twenty_one() {
    assert_eq!(hand_val(&hand(&[Face::Ace, Face::Ace, Face::Ace, Face::Eight])), 21);
}

#[test]
fn king_queen_two_busts() {
    let h = hand(&[Face::King, Face::Queen, Face::Two]);
    assert_eq!(hand_val(&h), 22);
    assert!(get_outcome(&h) == Outcome::Bust);
}

#[test]
fn empty_hand_holds_zero() {
    let h = Hand::new();
    assert_eq!(hand_val(&h), 0);
    assert!(get_outcome(&h) == Outcome::Holding(0));
}

#[test]
fn late_ace_counts_one() {
    assert_eq!(hand_val(&hand(&[Face::Six, Face::Five, Face::Ace])), 12);
    assert_eq!(hand_val(&hand(&[Face::Five, Face::Five, Face::Ace])), 21);
}

#[test]
fn face_values() {
    assert_eq!(face_val(10, Face::Ace), 11);
    assert_eq!(face_val(11, Face::Ace), 1);
    assert_eq!(face_val(0, Face::Jack), 10);
    assert_eq!(face_val(0, Face::Queen), 10);
    assert_eq!(face_val(0, Face::Ten), 10);
    assert_eq!(face_val(5, Face::Two), 2);
    assert_eq!(face_val(5, Face::Nine), 9);
}

#[test]
fn outcome_order() {
    assert!(Outcome::Bust < Outcome::Holding(4));
    assert!(Outcome::Holding(20) < Outcome::Holding(21));
    assert!(Outcome::Holding(17) == Outcome::Holding(17));
    assert_eq!(Outcome::Bust.compare(&Outcome::Bust), Ordering::Equal);
    assert_eq!(Outcome::Holding(4).compare(&Outcome::Bust), Ordering::Greater);
    assert_eq!(Outcome::Holding(19).compare(&Outcome::Holding(18)), Ordering::Greater);
    assert_eq!(Outcome::Holding(17).partial_cmp(&Outcome::Holding(17)), Some(Ordering::Equal));
    assert_eq!(Outcome::Bust.cmp(&Outcome::Holding(1)), Ordering::Less);
}

#[test]
fn outcome_is_repeatable() {
    let h = hand(&[Face::Ace, Face::Seven]);
    let first = get_outcome(&h);
    let second = get_outcome(&h);
    assert!(first == second);
    assert!(first == Outcome::Holding(18));
}

#[test]
fn dealer_stands_at_threshold() {
    assert!(prompt_dealer(&hand(&[Face::Ten, Face::Eight]), 20) == Decision::Stand);
    assert!(prompt_dealer(&hand(&[Face::Ace, Face::Seven]), 21) == Decision::Stand);
}

#[test]
fn dealer_stands_when_ahead() {
    assert!(prompt_dealer(&hand(&[Face::Ten, Face::Seven]), 15) == Decision::Stand);
    assert!(prompt_dealer(&hand(&[Face::Ten, Face::Two]), 11) == Decision::Stand);
}

#[test]
fn dealer_hits_when_behind_or_level() {
    assert!(prompt_dealer(&hand(&[Face::Ten, Face::Seven]), 17) == Decision::Hit);
    assert!(prompt_dealer(&hand(&[Face::Ten, Face::Six]), 20) == Decision::Hit);
}

#[test]
fn shoe_half_dealt_is_replaced() {
    assert!(should_replace(26, 26));
    assert!(!should_replace(25, 27));
    assert!(should_replace(208, 0));
    assert!(!should_replace(0, 208));
}

#[test]
fn win_of_ten_dollars_pays_six() {
    assert_eq!(settle(1000, Verdict::Win, false), 600);
}

#[test]
fn settlement_amounts() {
    assert_eq!(settle(1000, Verdict::Win, true), 1200);
    assert_eq!(settle(1000, Verdict::Loss, false), -1000);
    assert_eq!(settle(1000, Verdict::Loss, true), -2000);
    assert_eq!(settle(1000, Verdict::Push, true), 0);
    assert_eq!(settle(1, Verdict::Win, false), 1);
    assert_eq!(settle(2, Verdict::Win, false), 1);
    assert_eq!(settle(4, Verdict::Win, false), 2);
    assert_eq!(settle(4, Verdict::Win, true), 5);
    assert_eq!(settle(1234, Verdict::Win, false), 740);
}
