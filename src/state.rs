use vstd::prelude::*;
use crate::cards::{Card, Rank, Suit};
use crate::message::RequestData;
use crate::player::{PlayerId, PlayerView};
use crate::rules::{beats, endgame_answer, ErrorKind, DECK_SIZE, WINNING_SCORE};
use crate::stock::StockView;
use vstd::multiset::Multiset;

verus! {

/// Trick points and earlier declarations a player needs to end the game by
/// declaring a twenty (worth 20) or the forty (worth 40) not yet declared.
pub const TWENTY_WIN_SCORE: u32 = 46;

pub const FORTY_WIN_SCORE: u32 = 26;

/// The abstract state of a game.
pub struct GameView {
    pub stock: StockView,
    pub player1: PlayerView,
    pub player2: PlayerView,
    pub trump: Suit,
    pub winner: Option<PlayerId>,
    pub lead: PlayerId,
    pub led: Option<Card>,
}

/// The cards in known stock slots.
pub open spec fn stock_cards(slots: Seq<Option<Card>>) -> Seq<Card> {
    slots.map_values(|slot: Option<Card>| slot->0)
}

pub open spec fn led_cards(led: Option<Card>) -> Multiset<Card> {
    match led {
        Some(card) => Multiset::singleton(card),
        None => Multiset::empty(),
    }
}

/// The other card of an Ober/King pair.
pub open spec fn partner_rank(rank: Rank) -> Rank {
    if rank == Rank::Ober {
        Rank::King
    } else {
        Rank::Ober
    }
}

pub open spec fn is_pair_rank(rank: Rank) -> bool {
    rank == Rank::Ober || rank == Rank::King
}

impl GameView {
    pub open spec fn player(self, id: PlayerId) -> PlayerView {
        match id {
            PlayerId::Player1 => self.player1,
            PlayerId::Player2 => self.player2,
        }
    }

    pub open spec fn with_player(self, id: PlayerId, p: PlayerView) -> GameView {
        match id {
            PlayerId::Player1 => GameView { player1: p, ..self },
            PlayerId::Player2 => GameView { player2: p, ..self },
        }
    }

    /// The seat to act: the lead, or its opponent once a card is led.
    pub open spec fn turn(self) -> PlayerId {
        if self.led is Some {
            self.lead.opponent()
        } else {
            self.lead
        }
    }

    pub open spec fn score(self, id: PlayerId) -> nat {
        self.player(id).score()
    }

    /// Cards in both hands, both piles of won cards and the stock.
    pub open spec fn card_count(self) -> nat {
        self.player1.hand.len() + self.player1.wins.len() + self.player2.hand.len()
            + self.player2.wins.len() + self.stock.slots.len()
    }

    /// The cards on the table: those counted by `card_count` and the card
    /// led in the current trick.
    pub open spec fn cards_in_play(self) -> nat {
        self.card_count() + if self.led is Some {
            1nat
        } else {
            0nat
        }
    }

    /// Every card on the table: both hands, both piles of won cards, the
    /// stock's known cards and the card led in the current trick.
    pub open spec fn all_cards(self) -> Multiset<Card> {
        self.player1.hand.to_multiset().add(self.player1.wins.to_multiset()).add(
            self.player2.hand.to_multiset(),
        ).add(self.player2.wins.to_multiset()).add(stock_cards(self.stock.slots).to_multiset()).add(
            led_cards(self.led),
        )
    }

    /// Every card is known: both players record, no stock slot is hidden,
    /// and the rank on show is that of the trump card at the exposed slot.
    pub open spec fn is_complete(self) -> bool {
        &&& self.player1.records
        &&& self.player2.records
        &&& forall|i: int| 0 <= i < self.stock.slots.len() ==> (#[trigger] self.stock.slots[i]) is Some
        &&& (self.stock.shown matches Some(rank) ==> self.stock.slots[0] == Some(
            Card { suit: self.trump, rank },
        ))
    }

    pub open spec fn wf(self) -> bool {
        &&& self.cards_in_play() <= DECK_SIZE
        &&& (!self.player1.records ==> self.player1.hand.len() == 0)
        &&& (!self.player2.records ==> self.player2.hand.len() == 0)
        &&& self.player1.declarations_valid(self.trump)
        &&& self.player2.declarations_valid(self.trump)
        &&& (self.stock.shown is Some <==> !self.stock.closed && self.stock.slots.len() > 0)
    }

    pub open spec fn in_endgame(self) -> bool {
        self.stock.closed || self.stock.slots.len() == 0
    }

    /// Shared checks of the commands that only the lead may issue between tricks.
    pub open spec fn lead_check(self) -> Result<(), ErrorKind> {
        if self.led is Some {
            Err(ErrorKind::PlayerNotOnLead)
        } else if self.winner is Some {
            Err(ErrorKind::GameOver)
        } else {
            Ok(())
        }
    }

    pub open spec fn close_check(self) -> Result<(), ErrorKind> {
        if self.lead_check() is Err {
            self.lead_check()
        } else if self.stock.closed {
            Err(ErrorKind::DeckClosed)
        } else if self.stock.slots.len() <= 2 {
            Err(ErrorKind::NotEnoughCardsInStock)
        } else {
            Ok(())
        }
    }

    pub open spec fn after_close(self) -> GameView {
        GameView { stock: StockView { closed: true, shown: None, ..self.stock }, ..self }
    }

    pub open spec fn exchange_check(self) -> Result<(), ErrorKind> {
        let unter = Card { suit: self.trump, rank: Rank::Unter };
        if self.close_check() is Err {
            self.close_check()
        } else if !self.player(self.turn()).hand.contains(unter) {
            Err(ErrorKind::NoSuchCardInHand(unter))
        } else {
            Ok(())
        }
    }

    /// The acting player trades the trump Unter for the indicator card, and
    /// the indicator becomes the Unter.
    pub open spec fn after_exchange(self) -> GameView {
        let t = self.turn();
        let shown = self.stock.shown.unwrap();
        let stock = StockView {
            slots: self.stock.slots.update(
                0,
                crate::stock::with_rank(self.stock.slots[0], Rank::Unter),
            ),
            shown: Some(Rank::Unter),
            ..self.stock
        };
        let p = self.player(t).without(Card { suit: self.trump, rank: Rank::Unter }).gain(
            Card { suit: self.trump, rank: shown },
        );
        GameView { stock, ..self.with_player(t, p) }
    }

    pub open spec fn score_error(self, threshold: nat) -> Result<(), ErrorKind> {
        let score = self.score(self.turn());
        if score < threshold {
            Err(ErrorKind::ScoreTooLow(score as u32))
        } else {
            Ok(())
        }
    }

    pub open spec fn declare_win_check(self) -> Result<(), ErrorKind> {
        if self.lead_check() is Err {
            self.lead_check()
        } else {
            self.score_error(WINNING_SCORE as nat)
        }
    }

    pub open spec fn won_by_turn(self) -> GameView {
        GameView { winner: Some(self.turn()), ..self }
    }

    pub open spec fn twenty_check(self, card: Card) -> Result<(), ErrorKind> {
        let hand = self.player(self.turn()).hand;
        let other = Card { suit: card.suit, rank: partner_rank(card.rank) };
        if self.led is Some {
            Err(ErrorKind::PlayerNotOnLead)
        } else if !is_pair_rank(card.rank) {
            Err(ErrorKind::NotTwentyCard(card))
        } else if self.winner is Some {
            Err(ErrorKind::GameOver)
        } else if !hand.contains(card) {
            Err(ErrorKind::NoSuchCardInHand(card))
        } else if !hand.contains(other) {
            Err(ErrorKind::NoSuchCardInHand(other))
        } else if self.player(self.turn()).twenties.contains(card.suit) {
            Err(ErrorKind::AlreadyCalledThisTwenty(card.suit))
        } else if card.suit == self.trump {
            Err(ErrorKind::TwentyWithTrumpSuit)
        } else {
            Ok(())
        }
    }

    pub open spec fn twenty_win_check(self, suit: Suit) -> Result<(), ErrorKind> {
        let check = self.twenty_check(Card { suit, rank: Rank::King });
        if check is Err {
            check
        } else {
            self.score_error(TWENTY_WIN_SCORE as nat)
        }
    }

    pub open spec fn forty_check(self, card: Card) -> Result<(), ErrorKind> {
        let hand = self.player(self.turn()).hand;
        let ober = Card { suit: self.trump, rank: Rank::Ober };
        let king = Card { suit: self.trump, rank: Rank::King };
        if self.led is Some {
            Err(ErrorKind::PlayerNotOnLead)
        } else if !is_pair_rank(card.rank) || card.suit != self.trump {
            Err(ErrorKind::NotFortyCard(card))
        } else if self.winner is Some {
            Err(ErrorKind::GameOver)
        } else if !hand.contains(ober) {
            Err(ErrorKind::NoSuchCardInHand(ober))
        } else if !hand.contains(king) {
            Err(ErrorKind::NoSuchCardInHand(king))
        } else if self.player(self.turn()).forty is Some {
            Err(ErrorKind::AlreadyCalledForty)
        } else {
            Ok(())
        }
    }

    pub open spec fn forty_win_check(self) -> Result<(), ErrorKind> {
        let check = self.forty_check(Card { suit: self.trump, rank: Rank::King });
        if check is Err {
            check
        } else {
            self.score_error(FORTY_WIN_SCORE as nat)
        }
    }

    pub open spec fn play_check(self, card: Card) -> Result<(), ErrorKind> {
        let hand = self.player(self.turn()).hand;
        if self.winner is Some {
            Err(ErrorKind::GameOver)
        } else if !hand.contains(card) {
            Err(ErrorKind::NoSuchCardInHand(card))
        } else {
            match self.led {
                None => Ok(()),
                Some(led) => if self.in_endgame() {
                    endgame_answer(led, hand, card, self.trump)
                } else {
                    Ok(())
                },
            }
        }
    }

    /// Draws two cards for the trick winner `w` (first) and its opponent.
    /// Cards move only if both draws yield one. The cards come back ordered
    /// as (player 1's, player 2's).
    pub open spec fn after_deal(self, w: PlayerId) -> (GameView, Option<(Card, Card)>) {
        let s = self.stock.slots;
        let first = s.last();
        let s1 = s.drop_last();
        let second = if s1.len() > 0 {
            s1.last()
        } else {
            None
        };
        let s2 = if s1.len() > 0 {
            s1.drop_last()
        } else {
            s1
        };
        let stock = StockView {
            slots: s2,
            shown: if s2.len() > 0 {
                self.stock.shown
            } else {
                None
            },
            ..self.stock
        };
        let v = GameView { stock, ..self };
        match (first, second) {
            (Some(a), Some(b)) => {
                let v1 = v.with_player(w, v.player(w).gain(a));
                let v2 = v1.with_player(w.opponent(), v1.player(w.opponent()).gain(b));
                (v2, Some(if w == PlayerId::Player1 { (a, b) } else { (b, a) }))
            },
            _ => (v, None),
        }
    }

    /// The acting player plays `card`: it leads the trick, or answers and
    /// the trick is resolved.
    pub open spec fn after_play(self, card: Card) -> (GameView, Option<(Card, Card)>) {
        let t = self.turn();
        let v0 = self.with_player(t, self.player(t).without(card));
        match self.led {
            None => (GameView { led: Some(card), ..v0 }, None),
            Some(led) => {
                let w = if beats(led, card, self.trump) {
                    self.lead
                } else {
                    t
                };
                let v1 = v0.with_player(w, v0.player(w).won(led, card));
                let dealt = if !v1.stock.closed && v1.stock.slots.len() > 0 {
                    v1.after_deal(w)
                } else {
                    (v1, None)
                };
                let v2 = GameView { lead: w, led: None, ..dealt.0 };
                let v3 = if v2.player1.hand.len() == 0 || v2.player2.hand.len() == 0 {
                    GameView { winner: Some(w), ..v2 }
                } else {
                    v2
                };
                (v3, dealt.1)
            },
        }
    }

    pub open spec fn after_twenty(self, card: Card) -> GameView {
        let t = self.turn();
        self.with_player(t, self.player(t).with_twenty(card.suit)).after_play(card).0
    }

    pub open spec fn after_forty(self, card: Card) -> GameView {
        let t = self.turn();
        self.with_player(t, self.player(t).with_forty(self.trump)).after_play(card).0
    }

    /// The outcome of `cmd` issued by the player whose turn it is.
    pub open spec fn apply(self, cmd: RequestData) -> Result<GameView, ErrorKind> {
        match cmd {
            RequestData::Close => match self.close_check() {
                Ok(_) => Ok(self.after_close()),
                Err(e) => Err(e),
            },
            RequestData::ExchangeTrump => match self.exchange_check() {
                Ok(_) => Ok(self.after_exchange()),
                Err(e) => Err(e),
            },
            RequestData::PlayTwenty(card) => match self.twenty_check(card) {
                Ok(_) => Ok(self.after_twenty(card)),
                Err(e) => Err(e),
            },
            RequestData::TwentyDeclareWin(suit) => match self.twenty_win_check(suit) {
                Ok(_) => Ok(self.won_by_turn()),
                Err(e) => Err(e),
            },
            RequestData::PlayForty(card) => match self.forty_check(card) {
                Ok(_) => Ok(self.after_forty(card)),
                Err(e) => Err(e),
            },
            RequestData::FortyDeclareWin => match self.forty_win_check() {
                Ok(_) => Ok(self.won_by_turn()),
                Err(e) => Err(e),
            },
            RequestData::DeclareWin => match self.declare_win_check() {
                Ok(_) => Ok(self.won_by_turn()),
                Err(e) => Err(e),
            },
            RequestData::PlayCard(card) => match self.play_check(card) {
                Ok(_) => Ok(self.after_play(card).0),
                Err(e) => Err(e),
            },
        }
    }
}

pub proof fn lemma_distinct_suits(s: Seq<Suit>)
    requires
        s.no_duplicates(),
    ensures
        s.len() <= 4,
{
    let all = set![Suit::Hearts, Suit::Bells, Suit::Acorns, Suit::Leaves];
    s.unique_seq_to_set();
    assert forall|x: Suit| s.to_set().contains(x) implies all.contains(x) by {
        match x {
            Suit::Hearts => {},
            Suit::Bells => {},
            Suit::Acorns => {},
            Suit::Leaves => {},
        }
    }
    vstd::set_lib::lemma_len_subset(s.to_set(), all);
}

/// In a well-formed game no score exceeds what one deck and all
/// declarations can give.
pub proof fn lemma_score_bound(v: GameView, id: PlayerId)
    requires
        v.wf(),
    ensures
        v.score(id) <= 340,
{
    lemma_player_score_bound(v.player(id));
}

/// A player who won at most one deck's cards and declared each twenty once
/// has at most 340 points.
pub proof fn lemma_player_score_bound(p: PlayerView)
    requires
        p.wins.len() <= DECK_SIZE,
        p.twenties.no_duplicates(),
    ensures
        p.score() <= 340,
{
    crate::player::lemma_sum_values_bound(p.wins);
    lemma_distinct_suits(p.twenties);
}

/// The state reached from `v` by issuing `cmds` in order; a rejected
/// command leaves the state as it was.
pub open spec fn run(v: GameView, cmds: Seq<RequestData>) -> GameView
    decreases cmds.len(),
{
    if cmds.len() == 0 {
        v
    } else {
        let prev = run(v, cmds.drop_last());
        match prev.apply(cmds.last()) {
            Ok(next) => next,
            Err(_) => prev,
        }
    }
}

} // verus!
