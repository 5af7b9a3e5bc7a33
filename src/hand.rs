use vstd::prelude::*;

verus! {

/// The rank printed on a card. Suits and visibility play no part in scoring.
#[derive(Copy, Clone, Debug, PartialEq, Eq, Structural, Hash)]
pub enum Face {
    Two,
    Three,
    Four,
    Five,
    Six,
    Seven,
    Eight,
    Nine,
    Ten,
    Jack,
    Queen,
    King,
    Ace,
}

/// What `face` adds to a running total `sum`: an ace is worth eleven
/// unless the total already exceeds ten, in which case it is worth one.
pub open spec fn face_value(sum: int, face: Face) -> int {
    match face {
        Face::Ace => if sum > 10 { 1 } else { 11 },
        Face::King | Face::Queen | Face::Jack | Face::Ten => 10,
        Face::Nine => 9,
        Face::Eight => 8,
        Face::Seven => 7,
        Face::Six => 6,
        Face::Five => 5,
        Face::Four => 4,
        Face::Three => 3,
        Face::Two => 2,
    }
}

/// The total of a sequence of faces, folded from the first card to the last.
pub open spec fn hand_value(faces: Seq<Face>) -> int
    decreases faces.len(),
{
    if faces.len() == 0 {
        0
    } else {
        let before = hand_value(faces.drop_last());
        before + face_value(before, faces.last())
    }
}

/// What `face` adds to a hand whose running total is `sum`.
pub fn face_val(sum: usize, face: Face) -> (r: usize)
    ensures
        r == face_value(sum as int, face),
{
    match face {
        Face::Ace => if sum > 10 { 1 } else { 11 },
        Face::King | Face::Queen | Face::Jack | Face::Ten => 10,
        Face::Nine => 9,
        Face::Eight => 8,
        Face::Seven => 7,
        Face::Six => 6,
        Face::Five => 5,
        Face::Four => 4,
        Face::Three => 3,
        Face::Two => 2,
    }
}

/// The largest number of cards a hand may hold so that its total fits a `usize`.
pub const MAX_HAND_LEN: usize = 0x0fff_ffff;

/// Every card adds between one and eleven to a total.
pub proof fn lemma_hand_value_bounds(faces: Seq<Face>)
    ensures
        faces.len() <= hand_value(faces) <= 11 * faces.len(),
    decreases faces.len(),
{
    if faces.len() > 0 {
        lemma_hand_value_bounds(faces.drop_last());
    }
}

/// The value of a two-card hand does not depend on the order in which the
/// cards were dealt, and never exceeds twenty-one: a natural is a natural
/// whichever card comes first.
pub proof fn lemma_two_cards_order_independent(a: Face, b: Face)
    ensures
        hand_value(seq![a, b]) == hand_value(seq![b, a]),
        hand_value(seq![a, b]) <= 21,
{
    assert(seq![a, b].drop_last() =~= seq![a]);
    assert(seq![b, a].drop_last() =~= seq![b]);
    assert(seq![a].drop_last() =~= Seq::<Face>::empty());
    assert(seq![b].drop_last() =~= Seq::<Face>::empty());
    assert(hand_value(Seq::<Face>::empty()) == 0);
    assert(hand_value(seq![a]) == face_value(0, a));
    assert(hand_value(seq![b]) == face_value(0, b));
    assert(hand_value(seq![a, b]) == face_value(0, a) + face_value(face_value(0, a), b));
    assert(hand_value(seq![b, a]) == face_value(0, b) + face_value(face_value(0, b), a));
}

/// An ordered sequence of dealt cards, to which cards are only ever appended.
pub struct Hand {
    cards: Vec<Face>,
}

impl View for Hand {
    type V = Seq<Face>;

    closed spec fn view(&self) -> Seq<Face> {
        self.cards@
    }
}

impl Hand {
    pub fn new() -> (r: Hand)
        ensures
            r@ == Seq::<Face>::empty(),
    {
        Hand { cards: Vec::new() }
    }

    /// Builds a hand holding `faces` in the order given.
    pub fn from_faces(faces: Vec<Face>) -> (r: Hand)
        ensures
            r@ == faces@,
    {
        Hand { cards: faces }
    }

    /// Appends a dealt card.
    pub fn push_card(&mut self, face: Face)
        ensures
            final(self)@ == old(self)@.push(face),
    {
        self.cards.push(face);
    }

    pub fn cards(&self) -> (r: &[Face])
        ensures
            r@ == self@,
    {
        self.cards.as_slice()
    }

    pub fn len(&self) -> (r: usize)
        ensures
            r == self@.len(),
    {
        self.cards.len()
    }
}

/// The total of `hand`, scoring each card against the total of the cards before it.
pub fn hand_val(hand: &Hand) -> (r: usize)
    requires
        hand@.len() <= MAX_HAND_LEN,
    ensures
        r == hand_value(hand@),
{
    let n = hand.cards.len();
    let mut acc: usize = 0;
    let mut i: usize = 0;
    while i < n
        invariant
            n == hand@.len(),
            n <= MAX_HAND_LEN,
            i <= n,
            acc == hand_value(hand@.take(i as int)),
        decreases n - i,
    {
        proof {
            assert(hand@.take(i as int + 1).drop_last() =~= hand@.take(i as int));
            lemma_hand_value_bounds(hand@.take(i as int));
        }
        acc = acc + face_val(acc, hand.cards[i]);
        i = i + 1;
    }
    assert(hand@.take(n as int) =~= hand@);
    acc
}

} // verus!
