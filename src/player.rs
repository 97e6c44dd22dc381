use vstd::prelude::*;
use crate::cards::{Card, Suit};
use crate::rules::{card_value, value};

verus! {

/// The two seats at the table.
#[derive(Clone, Copy, Debug, PartialEq, Eq, Structural)]
pub enum PlayerId {
    Player1,
    Player2,
}

impl PlayerId {
    pub open spec fn opponent(self) -> PlayerId {
        match self {
            PlayerId::Player1 => PlayerId::Player2,
            PlayerId::Player2 => PlayerId::Player1,
        }
    }

    pub fn other(&self) -> (r: PlayerId)
        ensures
            r == self.opponent(),
            r != *self,
    {
        match *self {
            PlayerId::Player1 => PlayerId::Player2,
            PlayerId::Player2 => PlayerId::Player1,
        }
    }
}

/// Sum of the face values of `cards`.
pub open spec fn sum_values(cards: Seq<Card>) -> nat
    decreases cards.len(),
{
    if cards.len() == 0 {
        0
    } else {
        sum_values(cards.drop_last()) + card_value(cards.last())
    }
}

/// Trick points plus twenty for each declared twenty and forty for a forty.
pub open spec fn score_of(wins: Seq<Card>, twenties: Seq<Suit>, forty: Option<Suit>) -> nat {
    sum_values(wins) + 20 * twenties.len() + if forty is Some {
        40nat
    } else {
        0nat
    }
}

/// Index of the first occurrence of `card` in `hand` (its length if none).
pub open spec fn first_position(hand: Seq<Card>, card: Card) -> int
    decreases hand.len(),
{
    if hand.len() == 0 || hand[0] == card {
        0
    } else {
        1 + first_position(hand.drop_first(), card)
    }
}

/// `hand` without the first occurrence of `card`; `hand` itself if it has none.
pub open spec fn remove_card(hand: Seq<Card>, card: Card) -> Seq<Card> {
    if hand.contains(card) {
        hand.remove(first_position(hand, card))
    } else {
        hand
    }
}

pub proof fn lemma_sum_values_bound(cards: Seq<Card>)
    ensures
        sum_values(cards) <= 11 * cards.len(),
    decreases cards.len(),
{
    if cards.len() > 0 {
        lemma_sum_values_bound(cards.drop_last());
    }
}

pub proof fn lemma_sum_values_push(cards: Seq<Card>, card: Card)
    ensures
        sum_values(cards.push(card)) == sum_values(cards) + card_value(card),
{
    assert(cards.push(card).drop_last() =~= cards);
}

pub proof fn lemma_first_position(hand: Seq<Card>, card: Card, i: int)
    requires
        0 <= i < hand.len(),
        hand[i] == card,
        forall|k: int| 0 <= k < i ==> hand[k] != card,
    ensures
        first_position(hand, card) == i,
    decreases i,
{
    if i > 0 {
        let rest = hand.drop_first();
        assert forall|k: int| 0 <= k < i - 1 implies rest[k] != card by {
            assert(rest[k] == hand[k + 1]);
        }
        lemma_first_position(rest, card, i - 1);
    }
}

proof fn lemma_first_position_bounds(hand: Seq<Card>, card: Card)
    requires
        hand.contains(card),
    ensures
        0 <= first_position(hand, card) < hand.len(),
        hand[first_position(hand, card)] == card,
    decreases hand.len(),
{
    if hand[0] != card {
        let i = choose|i: int| 0 <= i < hand.len() && hand[i] == card;
        assert(hand.drop_first()[i - 1] == card);
        lemma_first_position_bounds(hand.drop_first(), card);
    }
}

pub proof fn lemma_remove_card_len(hand: Seq<Card>, card: Card)
    ensures
        hand.contains(card) ==> remove_card(hand, card).len() == hand.len() - 1,
        hand.contains(card) ==> remove_card(hand, card).to_multiset() == hand.to_multiset().remove(
            card,
        ),
        !hand.contains(card) ==> remove_card(hand, card) == hand,
{
    broadcast use vstd::seq_lib::group_to_multiset_ensures;

    if hand.contains(card) {
        lemma_first_position_bounds(hand, card);
    }
}

/// What a player state offers to the game: a hand, a pile of won cards, the
/// declared twenties and forty, and the score. A state that does not
/// `records` ignores every change (it stands for a player whose cards are
/// hidden).
pub trait IPlayer: Sized {
    spec fn hand(&self) -> Seq<Card>;

    spec fn wins(&self) -> Seq<Card>;

    spec fn twenties(&self) -> Seq<Suit>;

    spec fn forty(&self) -> Option<Suit>;

    spec fn records(&self) -> bool;

    spec fn name(&self) -> Seq<char>;

    fn get_name(&self) -> (r: &str)
        ensures
            r@ == self.name(),
    ;

    fn get_hand(&self) -> (r: &[Card])
        ensures
            r@ == self.hand(),
    ;

    fn add_to_hand(&mut self, card: Card)
        ensures
            final(self).records() == old(self).records(),
            final(self).hand() == (if old(self).records() {
                old(self).hand().push(card)
            } else {
                old(self).hand()
            }),
            final(self).wins() == old(self).wins(),
            final(self).twenties() == old(self).twenties(),
            final(self).forty() == old(self).forty(),
    ;

    /// Removes the first occurrence of `card`; nothing if the hand lacks it.
    fn remove_from_hand(&mut self, card: Card)
        ensures
            final(self).records() == old(self).records(),
            final(self).hand() == (if old(self).records() {
                remove_card(old(self).hand(), card)
            } else {
                old(self).hand()
            }),
            final(self).wins() == old(self).wins(),
            final(self).twenties() == old(self).twenties(),
            final(self).forty() == old(self).forty(),
    ;

    fn get_wins(&self) -> (r: &[Card])
        ensures
            r@ == self.wins(),
    ;

    fn add_to_wins(&mut self, card1: Card, card2: Card)
        ensures
            final(self).records() == old(self).records(),
            final(self).hand() == old(self).hand(),
            final(self).wins() == (if old(self).records() {
                old(self).wins().push(card1).push(card2)
            } else {
                old(self).wins()
            }),
            final(self).twenties() == old(self).twenties(),
            final(self).forty() == old(self).forty(),
    ;

    fn get_twenties(&self) -> (r: &[Suit])
        ensures
            r@ == self.twenties(),
    ;

    fn add_twenty(&mut self, suit: Suit)
        ensures
            final(self).records() == old(self).records(),
            final(self).hand() == old(self).hand(),
            final(self).wins() == old(self).wins(),
            final(self).twenties() == (if old(self).records() {
                old(self).twenties().push(suit)
            } else {
                old(self).twenties()
            }),
            final(self).forty() == old(self).forty(),
    ;

    fn get_forty(&self) -> (r: &Option<Suit>)
        ensures
            *r == self.forty(),
    ;

    fn add_forty(&mut self, suit: Suit)
        ensures
            final(self).records() == old(self).records(),
            final(self).hand() == old(self).hand(),
            final(self).wins() == old(self).wins(),
            final(self).twenties() == old(self).twenties(),
            final(self).forty() == (if old(self).records() {
                Some(suit)
            } else {
                old(self).forty()
            }),
    ;

    fn score(&self) -> (r: u32)
        requires
            score_of(self.wins(), self.twenties(), self.forty()) <= u32::MAX,
        ensures
            r == score_of(self.wins(), self.twenties(), self.forty()),
    ;
}

/// What a game sees of a player state.
pub struct PlayerView {
    pub hand: Seq<Card>,
    pub wins: Seq<Card>,
    pub twenties: Seq<Suit>,
    pub forty: Option<Suit>,
    pub records: bool,
}

impl PlayerView {
    pub open spec fn score(self) -> nat {
        score_of(self.wins, self.twenties, self.forty)
    }

    pub open spec fn gain(self, card: Card) -> PlayerView {
        if self.records {
            PlayerView { hand: self.hand.push(card), ..self }
        } else {
            self
        }
    }

    pub open spec fn without(self, card: Card) -> PlayerView {
        if self.records {
            PlayerView { hand: remove_card(self.hand, card), ..self }
        } else {
            self
        }
    }

    pub open spec fn won(self, card1: Card, card2: Card) -> PlayerView {
        if self.records {
            PlayerView { wins: self.wins.push(card1).push(card2), ..self }
        } else {
            self
        }
    }

    pub open spec fn with_twenty(self, suit: Suit) -> PlayerView {
        if self.records {
            PlayerView { twenties: self.twenties.push(suit), ..self }
        } else {
            self
        }
    }

    pub open spec fn with_forty(self, suit: Suit) -> PlayerView {
        if self.records {
            PlayerView { forty: Some(suit), ..self }
        } else {
            self
        }
    }

    /// Each twenty declared once, none in trump; a forty only in trump.
    pub open spec fn declarations_valid(self, trump: Suit) -> bool {
        &&& self.twenties.no_duplicates()
        &&& !self.twenties.contains(trump)
        &&& (self.forty matches Some(s) ==> s == trump)
    }
}

/// The state of one player, as given to `Player::new`.
#[derive(Default, Debug)]
pub struct PlayerData {
    pub name: String,
    pub hand: Vec<Card>,
    pub wins: Vec<Card>,
    pub twenties: Vec<Suit>,
    pub forty: Option<Suit>,
}

/// A player whose cards are known.
#[derive(Default, Debug)]
pub struct Player {
    data: PlayerData,
}

impl View for Player {
    type V = PlayerView;

    open spec fn view(&self) -> PlayerView {
        PlayerView {
            hand: self.hand(),
            wins: self.wins(),
            twenties: self.twenties(),
            forty: self.forty(),
            records: self.records(),
        }
    }
}

impl Player {
    pub fn new(data: PlayerData) -> (r: Player)
        ensures
            r.records(),
            r.name() == data.name@,
            r.hand() == data.hand@,
            r.wins() == data.wins@,
            r.twenties() == data.twenties@,
            r.forty() == data.forty,
    {
        Player { data }
    }
}

/// Sum of the face values of `cards`.
fn sum_card_slice(cards: &[Card]) -> (r: u32)
    requires
        sum_values(cards@) <= u32::MAX,
    ensures
        r == sum_values(cards@),
{
    let mut total: u32 = 0;
    let mut i: usize = 0;
    while i < cards.len()
        invariant
            i <= cards@.len(),
            sum_values(cards@) <= u32::MAX,
            total == sum_values(cards@.subrange(0, i as int)),
        decreases cards@.len() - i,
    {
        proof {
            let prefix = cards@.subrange(0, i as int);
            assert(cards@.subrange(0, i + 1) =~= prefix.push(cards@[i as int]));
            lemma_sum_values_push(prefix, cards@[i as int]);
            lemma_sum_values_prefix(cards@, i + 1);
        }
        total = total + value(cards[i]);
        i += 1;
    }
    assert(cards@.subrange(0, i as int) =~= cards@);
    total
}

proof fn lemma_sum_values_prefix(cards: Seq<Card>, n: int)
    requires
        0 <= n <= cards.len(),
    ensures
        sum_values(cards.subrange(0, n)) <= sum_values(cards),
    decreases cards.len(),
{
    if n < cards.len() {
        assert(cards.drop_last().subrange(0, n) =~= cards.subrange(0, n));
        lemma_sum_values_prefix(cards.drop_last(), n);
    } else {
        assert(cards.subrange(0, n) =~= cards);
    }
}

impl IPlayer for Player {
    closed spec fn hand(&self) -> Seq<Card> {
        self.data.hand@
    }

    closed spec fn wins(&self) -> Seq<Card> {
        self.data.wins@
    }

    closed spec fn twenties(&self) -> Seq<Suit> {
        self.data.twenties@
    }

    closed spec fn forty(&self) -> Option<Suit> {
        self.data.forty
    }

    closed spec fn records(&self) -> bool {
        true
    }

    closed spec fn name(&self) -> Seq<char> {
        self.data.name@
    }

    fn get_name(&self) -> &str {
        self.data.name.as_str()
    }

    fn get_hand(&self) -> (r: &[Card]) {
        self.data.hand.as_slice()
    }

    fn add_to_hand(&mut self, card: Card) {
        self.data.hand.push(card);
    }

    fn remove_from_hand(&mut self, card: Card) {
        let mut i: usize = 0;
        while i < self.data.hand.len()
            invariant
                i <= self.data.hand@.len(),
                self.data.hand@ == old(self).data.hand@,
                self.data.wins@ == old(self).data.wins@,
                self.data.twenties@ == old(self).data.twenties@,
                self.data.forty == old(self).data.forty,
                forall|k: int| 0 <= k < i ==> self.data.hand@[k] != card,
            decreases self.data.hand@.len() - i,
        {
            if self.data.hand[i] == card {
                proof {
                    lemma_first_position(self.data.hand@, card, i as int);
                }
                self.data.hand.remove(i);
                return;
            }
            i += 1;
        }
    }

    fn get_wins(&self) -> (r: &[Card]) {
        self.data.wins.as_slice()
    }

    fn add_to_wins(&mut self, card1: Card, card2: Card) {
        self.data.wins.push(card1);
        self.data.wins.push(card2);
    }

    fn get_twenties(&self) -> (r: &[Suit]) {
        self.data.twenties.as_slice()
    }

    fn add_twenty(&mut self, suit: Suit) {
        self.data.twenties.push(suit);
    }

    fn get_forty(&self) -> (r: &Option<Suit>) {
        &self.data.forty
    }

    fn add_forty(&mut self, suit: Suit) {
        self.data.forty = Some(suit);
    }

    fn score(&self) -> (r: u32) {
        let tricks = sum_card_slice(self.data.wins.as_slice());
        let twenties = self.data.twenties.len() as u32 * 20;
        let forty: u32 = if self.data.forty.is_some() {
            40
        } else {
            0
        };
        tricks + twenties + forty
    }
}

/// A stand-in for a player whose cards are hidden: always an empty hand, no
/// wins, no declarations, score zero; every change is ignored.
#[derive(Debug)]
pub struct DummyPlayer;

impl IPlayer for DummyPlayer {
    open spec fn hand(&self) -> Seq<Card> {
        Seq::empty()
    }

    open spec fn wins(&self) -> Seq<Card> {
        Seq::empty()
    }

    open spec fn twenties(&self) -> Seq<Suit> {
        Seq::empty()
    }

    open spec fn forty(&self) -> Option<Suit> {
        None
    }

    open spec fn records(&self) -> bool {
        false
    }

    open spec fn name(&self) -> Seq<char> {
        Seq::empty()
    }

    fn get_name(&self) -> &str {
        proof {
            reveal_strlit("");
        }
        ""
    }

    fn get_hand(&self) -> (r: &[Card]) {
        &[]
    }

    fn add_to_hand(&mut self, _card: Card) {
    }

    fn remove_from_hand(&mut self, _card: Card) {
    }

    fn get_wins(&self) -> (r: &[Card]) {
        &[]
    }

    fn add_to_wins(&mut self, _card1: Card, _card2: Card) {
    }

    fn get_twenties(&self) -> (r: &[Suit]) {
        &[]
    }

    fn add_twenty(&mut self, _suit: Suit) {
    }

    fn get_forty(&self) -> (r: &Option<Suit>) {
        &None
    }

    fn add_forty(&mut self, _suit: Suit) {
    }

    fn score(&self) -> (r: u32) {
        0
    }
}

/// A player state as a game holds it: a known player, or a stand-in for one
/// whose cards are hidden.
#[derive(Debug)]
pub enum AnyPlayer {
    Known(Player),
    Hidden(DummyPlayer),
}

impl View for AnyPlayer {
    type V = PlayerView;

    open spec fn view(&self) -> PlayerView {
        PlayerView {
            hand: self.hand(),
            wins: self.wins(),
            twenties: self.twenties(),
            forty: self.forty(),
            records: self.records(),
        }
    }
}

impl IPlayer for AnyPlayer {
    open spec fn hand(&self) -> Seq<Card> {
        match self {
            AnyPlayer::Known(p) => p.hand(),
            AnyPlayer::Hidden(d) => d.hand(),
        }
    }

    open spec fn wins(&self) -> Seq<Card> {
        match self {
            AnyPlayer::Known(p) => p.wins(),
            AnyPlayer::Hidden(d) => d.wins(),
        }
    }

    open spec fn twenties(&self) -> Seq<Suit> {
        match self {
            AnyPlayer::Known(p) => p.twenties(),
            AnyPlayer::Hidden(d) => d.twenties(),
        }
    }

    open spec fn forty(&self) -> Option<Suit> {
        match self {
            AnyPlayer::Known(p) => p.forty(),
            AnyPlayer::Hidden(d) => d.forty(),
        }
    }

    open spec fn records(&self) -> bool {
        match self {
            AnyPlayer::Known(p) => p.records(),
            AnyPlayer::Hidden(d) => d.records(),
        }
    }

    open spec fn name(&self) -> Seq<char> {
        match self {
            AnyPlayer::Known(p) => p.name(),
            AnyPlayer::Hidden(d) => d.name(),
        }
    }

    fn get_name(&self) -> &str {
        match self {
            AnyPlayer::Known(p) => p.get_name(),
            AnyPlayer::Hidden(d) => d.get_name(),
        }
    }

    fn get_hand(&self) -> (r: &[Card]) {
        match self {
            AnyPlayer::Known(p) => p.get_hand(),
            AnyPlayer::Hidden(d) => d.get_hand(),
        }
    }

    fn add_to_hand(&mut self, card: Card) {
        match self {
            AnyPlayer::Known(p) => p.add_to_hand(card),
            AnyPlayer::Hidden(d) => d.add_to_hand(card),
        }
    }

    fn remove_from_hand(&mut self, card: Card) {
        match self {
            AnyPlayer::Known(p) => p.remove_from_hand(card),
            AnyPlayer::Hidden(d) => d.remove_from_hand(card),
        }
    }

    fn get_wins(&self) -> (r: &[Card]) {
        match self {
            AnyPlayer::Known(p) => p.get_wins(),
            AnyPlayer::Hidden(d) => d.get_wins(),
        }
    }

    fn add_to_wins(&mut self, card1: Card, card2: Card) {
        match self {
            AnyPlayer::Known(p) => p.add_to_wins(card1, card2),
            AnyPlayer::Hidden(d) => d.add_to_wins(card1, card2),
        }
    }

    fn get_twenties(&self) -> (r: &[Suit]) {
        match self {
            AnyPlayer::Known(p) => p.get_twenties(),
            AnyPlayer::Hidden(d) => d.get_twenties(),
        }
    }

    fn add_twenty(&mut self, suit: Suit) {
        match self {
            AnyPlayer::Known(p) => p.add_twenty(suit),
            AnyPlayer::Hidden(d) => d.add_twenty(suit),
        }
    }

    fn get_forty(&self) -> (r: &Option<Suit>) {
        match self {
            AnyPlayer::Known(p) => p.get_forty(),
            AnyPlayer::Hidden(d) => d.get_forty(),
        }
    }

    fn add_forty(&mut self, suit: Suit) {
        match self {
            AnyPlayer::Known(p) => p.add_forty(suit),
            AnyPlayer::Hidden(d) => d.add_forty(suit),
        }
    }

    fn score(&self) -> (r: u32) {
        match self {
            AnyPlayer::Known(p) => p.score(),
            AnyPlayer::Hidden(d) => d.score(),
        }
    }
}

} // verus!
