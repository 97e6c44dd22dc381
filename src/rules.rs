use vstd::prelude::*;
use crate::cards::{Card, Rank, Suit};

verus! {

/// Why a command was rejected.
#[derive(Clone, Copy, Debug, PartialEq, Eq, Structural)]
pub enum ErrorKind {
    GameOver,
    DeckClosed,
    NotEnoughCardsInStock,
    NoSuchCardInHand(Card),
    NotTwentyCard(Card),
    AlreadyCalledThisTwenty(Suit),
    TwentyWithTrumpSuit,
    NotFortyCard(Card),
    AlreadyCalledForty,
    PlayerNotOnLead,
    NotPlayersTurn,
    MustUseAnotherSuit(Suit),
    MustTake(Card),
    MustUseTrump,
    ScoreTooLow(u32),
}

/// Number of cards in a full deck.
pub const DECK_SIZE: usize = 20;

/// Points a player needs to declare a win.
pub const WINNING_SCORE: u32 = 66;

/// Face value of a rank: Unter 2, Ober 3, King 4, Ten 10, Ace 11, others 0.
pub open spec fn rank_value(rank: Rank) -> nat {
    match rank {
        Rank::Unter => 2,
        Rank::Ober => 3,
        Rank::King => 4,
        Rank::Ten => 10,
        Rank::Ace => 11,
        _ => 0,
    }
}

pub open spec fn card_value(card: Card) -> nat {
    rank_value(card.rank)
}

/// The ranks that make up the deck.
pub open spec fn is_deck_rank(rank: Rank) -> bool {
    rank_value(rank) > 0
}

/// Suit of the `i`-th group of five cards in a freshly generated deck.
pub open spec fn deck_suit(i: int) -> Suit {
    if i == 0 {
        Suit::Hearts
    } else if i == 1 {
        Suit::Bells
    } else if i == 2 {
        Suit::Acorns
    } else {
        Suit::Leaves
    }
}

/// Rank at position `j` within each suit of a freshly generated deck.
pub open spec fn deck_rank(j: int) -> Rank {
    if j == 0 {
        Rank::Unter
    } else if j == 1 {
        Rank::Ober
    } else if j == 2 {
        Rank::King
    } else if j == 3 {
        Rank::Ten
    } else {
        Rank::Ace
    }
}

/// The deck in generation order: suits Hearts, Bells, Acorns, Leaves, each
/// with ranks Unter, Ober, King, Ten, Ace.
pub open spec fn full_deck() -> Seq<Card> {
    Seq::new(DECK_SIZE as nat, |i: int| Card { suit: deck_suit(i / 5), rank: deck_rank(i % 5) })
}

/// Whether the card led first wins the trick against `second`.
pub open spec fn beats(first: Card, second: Card, trump: Suit) -> bool {
    if first.suit == second.suit {
        card_value(first) > card_value(second)
    } else {
        second.suit != trump
    }
}

/// Whether `card` is of the led card's suit and worth more than it.
pub open spec fn takes_in_suit(led: Card, card: Card) -> bool {
    card.suit == led.suit && card_value(led) < card_value(card)
}

/// The first card of `hand`, from the front, that takes `led` in its own suit.
pub open spec fn first_taking_card(led: Card, hand: Seq<Card>) -> Option<Card>
    decreases hand.len(),
{
    if hand.len() == 0 {
        None
    } else if takes_in_suit(led, hand[0]) {
        Some(hand[0])
    } else {
        first_taking_card(led, hand.drop_first())
    }
}

pub open spec fn holds_suit(hand: Seq<Card>, suit: Suit) -> bool {
    exists|i: int| 0 <= i < hand.len() && (#[trigger] hand[i]).suit == suit
}

/// The endgame rule for the second card of a trick: `second` answers `led`
/// from `hand` (which still holds `second`).
pub open spec fn endgame_answer(led: Card, hand: Seq<Card>, second: Card, trump: Suit) -> Result<
    (),
    ErrorKind,
> {
    if led.suit == second.suit {
        if card_value(led) < card_value(second) {
            Ok(())
        } else {
            match first_taking_card(led, hand) {
                Some(better) => Err(ErrorKind::MustTake(better)),
                None => Ok(()),
            }
        }
    } else if holds_suit(hand, led.suit) {
        Err(ErrorKind::MustUseAnotherSuit(led.suit))
    } else if second.suit == trump {
        Ok(())
    } else if holds_suit(hand, trump) {
        Err(ErrorKind::MustUseTrump)
    } else {
        Ok(())
    }
}

pub fn value(card: Card) -> (r: u32)
    ensures
        r == card_value(card),
{
    match card.rank() {
        Rank::Unter => 2,
        Rank::Ober => 3,
        Rank::King => 4,
        Rank::Ten => 10,
        Rank::Ace => 11,
        _ => 0,
    }
}

fn suit_of_group(i: usize) -> (r: Suit)
    ensures
        r == deck_suit(i as int),
{
    if i == 0 {
        Suit::Hearts
    } else if i == 1 {
        Suit::Bells
    } else if i == 2 {
        Suit::Acorns
    } else {
        Suit::Leaves
    }
}

fn rank_in_group(j: usize) -> (r: Rank)
    ensures
        r == deck_rank(j as int),
{
    if j == 0 {
        Rank::Unter
    } else if j == 1 {
        Rank::Ober
    } else if j == 2 {
        Rank::King
    } else if j == 3 {
        Rank::Ten
    } else {
        Rank::Ace
    }
}

/// The twenty cards of the deck, in a fixed order.
pub fn generate_deck() -> (r: Vec<Card>)
    ensures
        r@ == full_deck(),
{
    let mut deck: Vec<Card> = Vec::new();
    let mut i: usize = 0;
    while i < 4
        invariant
            i <= 4,
            deck@.len() == 5 * i,
            forall|k: int| 0 <= k < deck@.len() ==> #[trigger] deck@[k] == full_deck()[k],
        decreases 4 - i,
    {
        let suit = suit_of_group(i);
        let mut j: usize = 0;
        while j < 5
            invariant
                i < 4,
                j <= 5,
                suit == deck_suit(i as int),
                deck@.len() == 5 * i + j,
                forall|k: int| 0 <= k < deck@.len() ==> #[trigger] deck@[k] == full_deck()[k],
            decreases 5 - j,
        {
            let card = Card::new(suit, rank_in_group(j));
            assert((5 * i + j) as int / 5 == i as int && (5 * i + j) as int % 5 == j as int)
                by (nonlinear_arith)
                requires
                    j < 5,
            ;
            deck.push(card);
            j += 1;
        }
        i += 1;
    }
    assert(deck@ =~= full_deck());
    deck
}

/// Whether the card led first wins the trick: a card of the same suit wins
/// only by higher value, a card of another suit only if it is trump.
pub fn first_beats_second(first_card: Card, second_card: Card, trump: Suit) -> (r: bool)
    ensures
        r == beats(first_card, second_card, trump),
{
    if first_card.suit() == second_card.suit() {
        value(first_card) > value(second_card)
    } else {
        second_card.suit() != trump
    }
}

/// Whether `hand` holds `card`.
pub fn hand_contains(hand: &[Card], card: Card) -> (r: bool)
    ensures
        r == hand@.contains(card),
{
    let mut i: usize = 0;
    while i < hand.len()
        invariant
            i <= hand@.len(),
            forall|k: int| 0 <= k < i ==> hand@[k] != card,
        decreases hand@.len() - i,
    {
        if hand[i] == card {
            return true;
        }
        i += 1;
    }
    false
}

/// Whether `suits` holds `suit`.
pub fn suit_contains(suits: &[Suit], suit: Suit) -> (r: bool)
    ensures
        r == suits@.contains(suit),
{
    let mut i: usize = 0;
    while i < suits.len()
        invariant
            i <= suits@.len(),
            forall|k: int| 0 <= k < i ==> suits@[k] != suit,
        decreases suits@.len() - i,
    {
        if suits[i] == suit {
            return true;
        }
        i += 1;
    }
    false
}

/// Whether `hand` holds a card of `suit`.
pub fn hand_has_suit(hand: &[Card], suit: Suit) -> (r: bool)
    ensures
        r == holds_suit(hand@, suit),
{
    let mut i: usize = 0;
    while i < hand.len()
        invariant
            i <= hand@.len(),
            forall|k: int| 0 <= k < i ==> (#[trigger] hand@[k]).suit != suit,
        decreases hand@.len() - i,
    {
        if hand[i].suit == suit {
            return true;
        }
        i += 1;
    }
    false
}

proof fn lemma_first_taking_card_skip(led: Card, hand: Seq<Card>, i: int)
    requires
        0 <= i < hand.len(),
        forall|k: int| 0 <= k < i ==> !takes_in_suit(led, #[trigger] hand[k]),
    ensures
        first_taking_card(led, hand) == first_taking_card(led, hand.subrange(i, hand.len() as int)),
    decreases i,
{
    if i > 0 {
        let rest = hand.drop_first();
        assert(!takes_in_suit(led, hand[0]));
        assert forall|k: int| 0 <= k < i - 1 implies !takes_in_suit(led, #[trigger] rest[k]) by {
            assert(rest[k] == hand[k + 1]);
        }
        lemma_first_taking_card_skip(led, rest, i - 1);
        assert(rest.subrange(i - 1, rest.len() as int) =~= hand.subrange(i, hand.len() as int));
    } else {
        assert(hand.subrange(0, hand.len() as int) =~= hand);
    }
}

/// The first card of `hand` that takes `led` in its own suit, if any.
fn find_taking_card(led: Card, hand: &[Card]) -> (r: Option<Card>)
    ensures
        r == first_taking_card(led, hand@),
{
    let mut i: usize = 0;
    while i < hand.len()
        invariant
            i <= hand@.len(),
            forall|k: int| 0 <= k < i ==> !takes_in_suit(led, #[trigger] hand@[k]),
        decreases hand@.len() - i,
    {
        let card = hand[i];
        if card.suit == led.suit && value(led) < value(card) {
            proof {
                lemma_first_taking_card_skip(led, hand@, i as int);
            }
            return Some(card);
        }
        i += 1;
    }
    proof {
        lemma_no_taking_card(led, hand@);
    }
    None
}

proof fn lemma_no_taking_card(led: Card, hand: Seq<Card>)
    requires
        forall|k: int| 0 <= k < hand.len() ==> !takes_in_suit(led, #[trigger] hand[k]),
    ensures
        first_taking_card(led, hand) is None,
    decreases hand.len(),
{
    if hand.len() > 0 {
        let rest = hand.drop_first();
        assert forall|k: int| 0 <= k < rest.len() implies !takes_in_suit(led, #[trigger] rest[k]) by {
            assert(rest[k] == hand[k + 1]);
        }
        lemma_no_taking_card(led, rest);
    }
}

/// Checks the second card of a trick once the stock is closed or used up:
/// follow suit and take if possible, else play trump if possible.
pub fn legal_second_card_in_endgame(card1: Card, hand2: &[Card], card2: Card, trump: Suit) -> (r:
    Result<(), ErrorKind>)
    ensures
        r == endgame_answer(card1, hand2@, card2, trump),
{
    if card1.suit() == card2.suit() {
        if value(card1) < value(card2) {
            Ok(())
        } else {
            match find_taking_card(card1, hand2) {
                None => Ok(()),
                Some(better) => Err(ErrorKind::MustTake(better)),
            }
        }
    } else {
        if hand_has_suit(hand2, card1.suit()) {
            Err(ErrorKind::MustUseAnotherSuit(card1.suit()))
        } else if card2.suit() == trump {
            Ok(())
        } else if hand_has_suit(hand2, trump) {
            Err(ErrorKind::MustUseTrump)
        } else {
            Ok(())
        }
    }
}

/// Trick symmetry: of two distinct deck cards that share a suit, or of which
/// exactly one is trump, exactly one wins the trick whichever of them is led.
pub proof fn lemma_trick_symmetry(a: Card, b: Card, trump: Suit)
    requires
        a != b,
        is_deck_rank(a.rank),
        is_deck_rank(b.rank),
        a.suit == b.suit || a.suit == trump || b.suit == trump,
    ensures
        beats(a, b, trump) == !beats(b, a, trump),
{
    if a.suit == b.suit {
        assert(a.rank != b.rank);
    }
}

} // verus!
