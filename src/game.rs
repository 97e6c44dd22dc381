use vstd::prelude::*;
use crate::cards::{Card, Rank, Suit};
use crate::player::{AnyPlayer, DummyPlayer, IPlayer, Player, PlayerData, PlayerId, PlayerView};
use crate::rules::{
    first_beats_second, full_deck, generate_deck, hand_contains, legal_second_card_in_endgame,
    suit_contains, ErrorKind, WINNING_SCORE,
};
use crate::state::{lemma_score_bound, GameView, FORTY_WIN_SCORE, TWENTY_WIN_SCORE};
use crate::stock::{known_slots, stock_view, DummyStock, IStock, Stock, StockData, StockView};

verus! {

/// A game in progress: the stock, two player states, the trump suit, the
/// seat on lead, the card led in the current trick and, once decided, the
/// winner. Every command is checked in full before anything changes.
#[derive(Debug)]
pub struct Game<STOCK: IStock> {
    pub stock: STOCK,
    pub player1: AnyPlayer,
    pub player2: AnyPlayer,
    pub trump: Suit,
    pub winner: Option<PlayerId>,
    pub player_on_lead: PlayerId,
    pub first_card_in_trick: Option<Card>,
}

impl<STOCK: IStock> View for Game<STOCK> {
    type V = GameView;

    open spec fn view(&self) -> GameView {
        GameView {
            stock: stock_view(&self.stock),
            player1: self.player1@,
            player2: self.player2@,
            trump: self.trump,
            winner: self.winner,
            lead: self.player_on_lead,
            led: self.first_card_in_trick,
        }
    }
}

impl<STOCK: IStock> Game<STOCK> {
    pub fn get_stock(&self) -> (r: &STOCK)
        ensures
            stock_view(r) == self@.stock,
    {
        &self.stock
    }

    pub fn get_player1(&self) -> (r: &AnyPlayer)
        ensures
            r@ == self@.player1,
    {
        &self.player1
    }

    pub fn get_player2(&self) -> (r: &AnyPlayer)
        ensures
            r@ == self@.player2,
    {
        &self.player2
    }

    pub fn get_player(&self, player: PlayerId) -> (r: &AnyPlayer)
        ensures
            r@ == self@.player(player),
    {
        match player {
            PlayerId::Player1 => self.get_player1(),
            PlayerId::Player2 => self.get_player2(),
        }
    }

    pub fn player_id_on_lead(&self) -> (r: PlayerId)
        ensures
            r == self@.lead,
    {
        self.player_on_lead
    }

    pub fn player_id_on_turn(&self) -> (r: PlayerId)
        ensures
            r == self@.turn(),
    {
        match self.first_card_in_trick {
            Some(_) => self.player_on_lead.other(),
            None => self.player_on_lead,
        }
    }

    pub fn player_on_turn(&self) -> (r: &AnyPlayer)
        ensures
            r@ == self@.player(self@.turn()),
    {
        let player_id = self.player_id_on_turn();
        self.get_player(player_id)
    }

    pub fn trump(&self) -> (r: Suit)
        ensures
            r == self@.trump,
    {
        self.trump
    }

    /// The trump-indicator card on show, if any.
    pub fn trump_card(&self) -> (r: Option<Card>)
        ensures
            r == (match self@.stock.shown {
                Some(rank) => Some(Card { suit: self@.trump, rank }),
                None => None,
            }),
    {
        match self.stock.trump_card_rank() {
            Some(rank) => Some(Card::new(self.trump, rank)),
            None => None,
        }
    }

    pub fn get_first_card_in_trick(&self) -> (r: Option<Card>)
        ensures
            r == self@.led,
    {
        self.first_card_in_trick
    }

    pub fn is_closed(&self) -> (r: bool)
        ensures
            r == self@.stock.closed,
    {
        self.stock.is_closed()
    }

    pub fn is_game_over(&self) -> (r: bool)
        ensures
            r == self@.winner is Some,
    {
        self.winner.is_some()
    }

    pub fn winner(&self) -> (r: Option<PlayerId>)
        ensures
            r == self@.winner,
    {
        self.winner
    }

    fn on_lead(&self) -> (r: Result<(), ErrorKind>)
        ensures
            r is Ok <==> self@.led is None,
            r is Err ==> r == Err::<(), ErrorKind>(ErrorKind::PlayerNotOnLead),
    {
        if self.player_id_on_lead() == self.player_id_on_turn() {
            Ok(())
        } else {
            Err(ErrorKind::PlayerNotOnLead)
        }
    }

    pub fn can_close(&self) -> (r: Result<(), ErrorKind>)
        ensures
            r == self@.close_check(),
    {
        if self.on_lead().is_err() {
            Err(ErrorKind::PlayerNotOnLead)
        } else if self.is_game_over() {
            Err(ErrorKind::GameOver)
        } else if self.is_closed() {
            Err(ErrorKind::DeckClosed)
        } else if self.stock.len() <= 2 {
            Err(ErrorKind::NotEnoughCardsInStock)
        } else {
            Ok(())
        }
    }

    /// Closes the stock: no more cards are dealt and the endgame rules apply.
    pub fn close(&mut self) -> (r: Result<(), ErrorKind>)
        ensures
            r == old(self)@.close_check(),
            r is Ok ==> final(self)@ == old(self)@.after_close(),
            r is Err ==> final(self)@ == old(self)@,
    {
        let check = self.can_close();
        if check.is_err() {
            return check;
        }
        self.stock.close();
        Ok(())
    }

    pub fn can_exchange_trump(&self) -> (r: Result<(), ErrorKind>)
        ensures
            r == self@.exchange_check(),
    {
        let check = self.can_close();
        if check.is_err() {
            return check;
        }
        let player = self.player_on_turn();
        let trump_unter = Card::new(self.trump(), Rank::Unter);
        if hand_contains(player.get_hand(), trump_unter) {
            Ok(())
        } else {
            Err(ErrorKind::NoSuchCardInHand(trump_unter))
        }
    }

    fn remove_from_hand_of(&mut self, id: PlayerId, card: Card)
        ensures
            final(self)@ == old(self)@.with_player(id, old(self)@.player(id).without(card)),
    {
        match id {
            PlayerId::Player1 => self.player1.remove_from_hand(card),
            PlayerId::Player2 => self.player2.remove_from_hand(card),
        }
    }

    fn add_to_hand_of(&mut self, id: PlayerId, card: Card)
        ensures
            final(self)@ == old(self)@.with_player(id, old(self)@.player(id).gain(card)),
    {
        match id {
            PlayerId::Player1 => self.player1.add_to_hand(card),
            PlayerId::Player2 => self.player2.add_to_hand(card),
        }
    }

    fn add_to_wins_of(&mut self, id: PlayerId, card1: Card, card2: Card)
        ensures
            final(self)@ == old(self)@.with_player(id, old(self)@.player(id).won(card1, card2)),
    {
        match id {
            PlayerId::Player1 => self.player1.add_to_wins(card1, card2),
            PlayerId::Player2 => self.player2.add_to_wins(card1, card2),
        }
    }

    fn add_twenty_of(&mut self, id: PlayerId, suit: Suit)
        ensures
            final(self)@ == old(self)@.with_player(id, old(self)@.player(id).with_twenty(suit)),
    {
        match id {
            PlayerId::Player1 => self.player1.add_twenty(suit),
            PlayerId::Player2 => self.player2.add_twenty(suit),
        }
    }

    fn add_forty_of(&mut self, id: PlayerId, suit: Suit)
        ensures
            final(self)@ == old(self)@.with_player(id, old(self)@.player(id).with_forty(suit)),
    {
        match id {
            PlayerId::Player1 => self.player1.add_forty(suit),
            PlayerId::Player2 => self.player2.add_forty(suit),
        }
    }

    /// Trades the acting player's trump Unter for the trump-indicator card.
    pub fn exchange_trump(&mut self) -> (r: Result<(), ErrorKind>)
        requires
            old(self)@.wf(),
        ensures
            r == old(self)@.exchange_check(),
            r is Ok ==> final(self)@ == old(self)@.after_exchange(),
            r is Err ==> final(self)@ == old(self)@,
    {
        let check = self.can_exchange_trump();
        if check.is_err() {
            return check;
        }
        let trump = self.trump();
        let old_rank = self.stock.exchange_trump_card(Rank::Unter);
        // A well-formed game shows a rank whenever its stock is open and
        // holds cards, so the stock always hands one back here.
        let old_rank = match old_rank {
            Some(rank) => rank,
            None => {
                return Ok(());
            },
        };
        let old_trump_card = Card::new(trump, old_rank);
        let trump_unter = Card::new(trump, Rank::Unter);
        let player_id = self.player_id_on_turn();
        self.remove_from_hand_of(player_id, trump_unter);
        self.add_to_hand_of(player_id, old_trump_card);
        Ok(())
    }

    fn turn_score(&self) -> (r: u32)
        requires
            self@.wf(),
        ensures
            r == self@.score(self@.turn()),
    {
        proof {
            lemma_score_bound(self@, self@.turn());
        }
        self.player_on_turn().score()
    }

    pub fn can_declare_win(&self) -> (r: Result<(), ErrorKind>)
        requires
            self@.wf(),
        ensures
            r == self@.declare_win_check(),
    {
        if self.on_lead().is_err() {
            return Err(ErrorKind::PlayerNotOnLead);
        }
        if self.is_game_over() {
            return Err(ErrorKind::GameOver);
        }
        let player_score = self.turn_score();
        if player_score < WINNING_SCORE {
            Err(ErrorKind::ScoreTooLow(player_score))
        } else {
            Ok(())
        }
    }

    /// Ends the game in favour of the acting player, who must have 66 points.
    pub fn declare_win(&mut self) -> (r: Result<(), ErrorKind>)
        requires
            old(self)@.wf(),
        ensures
            r == old(self)@.declare_win_check(),
            r is Ok ==> final(self)@ == old(self)@.won_by_turn(),
            r is Err ==> final(self)@ == old(self)@,
    {
        let check = self.can_declare_win();
        if check.is_err() {
            return check;
        }
        self.winner = Some(self.player_id_on_turn());
        Ok(())
    }

    pub fn can_play_card_twenty(&self, card: Card) -> (r: Result<(), ErrorKind>)
        ensures
            r == self@.twenty_check(card),
    {
        if self.on_lead().is_err() {
            return Err(ErrorKind::PlayerNotOnLead);
        }
        if card.rank() != Rank::Ober && card.rank() != Rank::King {
            return Err(ErrorKind::NotTwentyCard(card));
        }
        if self.is_game_over() {
            return Err(ErrorKind::GameOver);
        }
        let player = self.player_on_turn();
        let other_rank_in_twenty = if card.rank() == Rank::Ober {
            Rank::King
        } else {
            Rank::Ober
        };
        let suit = card.suit();
        let other_card_in_twenty = Card::new(suit, other_rank_in_twenty);
        if !hand_contains(player.get_hand(), card) {
            Err(ErrorKind::NoSuchCardInHand(card))
        } else if !hand_contains(player.get_hand(), other_card_in_twenty) {
            Err(ErrorKind::NoSuchCardInHand(other_card_in_twenty))
        } else if suit_contains(player.get_twenties(), suit) {
            Err(ErrorKind::AlreadyCalledThisTwenty(suit))
        } else if suit == self.trump() {
            Err(ErrorKind::TwentyWithTrumpSuit)
        } else {
            Ok(())
        }
    }

    /// Declares a twenty in the suit of `card` and leads `card`, in one step.
    pub fn play_card_twenty(&mut self, card: Card) -> (r: Result<(), ErrorKind>)
        ensures
            r == old(self)@.twenty_check(card),
            r is Ok ==> final(self)@ == old(self)@.after_twenty(card),
            r is Err ==> final(self)@ == old(self)@,
    {
        let check = self.can_play_card_twenty(card);
        if check.is_err() {
            return check;
        }
        let player_id = self.player_id_on_turn();
        self.add_twenty_of(player_id, card.suit());
        match self.play_card(card) {
            Ok(_) => Ok(()),
            Err(e) => Err(e),
        }
    }

    pub fn can_declare_twenty_win(&self, suit: Suit) -> (r: Result<(), ErrorKind>)
        requires
            self@.wf(),
        ensures
            r == self@.twenty_win_check(suit),
    {
        let check = self.can_play_card_twenty(Card::new(suit, Rank::King));
        if check.is_err() {
            return check;
        }
        let score = self.turn_score();
        if score >= TWENTY_WIN_SCORE {
            Ok(())
        } else {
            Err(ErrorKind::ScoreTooLow(score))
        }
    }

    /// Ends the game in favour of the acting player on the strength of a
    /// twenty not yet declared in `suit`.
    pub fn declare_twenty_win(&mut self, suit: Suit) -> (r: Result<(), ErrorKind>)
        requires
            old(self)@.wf(),
        ensures
            r == old(self)@.twenty_win_check(suit),
            r is Ok ==> final(self)@ == old(self)@.won_by_turn(),
            r is Err ==> final(self)@ == old(self)@,
    {
        let check = self.can_declare_twenty_win(suit);
        if check.is_err() {
            return check;
        }
        self.winner = Some(self.player_id_on_turn());
        Ok(())
    }

    pub fn can_play_card_forty(&self, card: Card) -> (r: Result<(), ErrorKind>)
        ensures
            r == self@.forty_check(card),
    {
        if self.on_lead().is_err() {
            return Err(ErrorKind::PlayerNotOnLead);
        }
        if card.rank() != Rank::Ober && card.rank() != Rank::King || card.suit() != self.trump() {
            return Err(ErrorKind::NotFortyCard(card));
        }
        if self.is_game_over() {
            return Err(ErrorKind::GameOver);
        }
        let player = self.player_on_turn();
        let ober = Card::new(self.trump(), Rank::Ober);
        let king = Card::new(self.trump(), Rank::King);
        if !hand_contains(player.get_hand(), ober) {
            Err(ErrorKind::NoSuchCardInHand(ober))
        } else if !hand_contains(player.get_hand(), king) {
            Err(ErrorKind::NoSuchCardInHand(king))
        } else if player.get_forty().is_some() {
            Err(ErrorKind::AlreadyCalledForty)
        } else {
            Ok(())
        }
    }

    /// Declares the forty and leads `card`, the trump Ober or King, in one step.
    pub fn play_card_forty(&mut self, card: Card) -> (r: Result<(), ErrorKind>)
        ensures
            r == old(self)@.forty_check(card),
            r is Ok ==> final(self)@ == old(self)@.after_forty(card),
            r is Err ==> final(self)@ == old(self)@,
    {
        let check = self.can_play_card_forty(card);
        if check.is_err() {
            return check;
        }
        let trump = self.trump();
        let player_id = self.player_id_on_turn();
        self.add_forty_of(player_id, trump);
        match self.play_card(card) {
            Ok(_) => Ok(()),
            Err(e) => Err(e),
        }
    }

    pub fn can_declare_forty_win(&self) -> (r: Result<(), ErrorKind>)
        requires
            self@.wf(),
        ensures
            r == self@.forty_win_check(),
    {
        let check = self.can_play_card_forty(Card::new(self.trump(), Rank::King));
        if check.is_err() {
            return check;
        }
        let score = self.turn_score();
        if score >= FORTY_WIN_SCORE {
            Ok(())
        } else {
            Err(ErrorKind::ScoreTooLow(score))
        }
    }

    /// Ends the game in favour of the acting player on the strength of a
    /// forty not yet declared.
    pub fn declare_forty_win(&mut self) -> (r: Result<(), ErrorKind>)
        requires
            old(self)@.wf(),
        ensures
            r == old(self)@.forty_win_check(),
            r is Ok ==> final(self)@ == old(self)@.won_by_turn(),
            r is Err ==> final(self)@ == old(self)@,
    {
        let check = self.can_declare_forty_win();
        if check.is_err() {
            return check;
        }
        self.winner = Some(self.player_id_on_turn());
        Ok(())
    }

    pub fn can_play_card(&self, card: Card) -> (r: Result<(), ErrorKind>)
        ensures
            r == self@.play_check(card),
    {
        if self.is_game_over() {
            return Err(ErrorKind::GameOver);
        }
        let player = self.player_on_turn();
        if !hand_contains(player.get_hand(), card) {
            return Err(ErrorKind::NoSuchCardInHand(card));
        }
        match self.first_card_in_trick {
            None => Ok(()),
            Some(first_card) => self.can_play_card_as_2nd_player(first_card, card),
        }
    }

    fn can_play_card_as_2nd_player(&self, first_card: Card, card: Card) -> (r: Result<
        (),
        ErrorKind,
    >)
        ensures
            r == (if self@.in_endgame() {
                crate::rules::endgame_answer(
                    first_card,
                    self@.player(self@.turn()).hand,
                    card,
                    self@.trump,
                )
            } else {
                Ok(())
            }),
    {
        let is_endgame = self.is_closed() || self.stock.len() == 0;
        if !is_endgame {
            return Ok(());
        }
        let player = self.player_on_turn();
        legal_second_card_in_endgame(first_card, player.get_hand(), card, self.trump())
    }

    /// Plays `card` for the acting player. As the second card of a trick it
    /// resolves the trick and returns the cards dealt, if any, as (player
    /// 1's, player 2's).
    pub fn play_card(&mut self, card: Card) -> (r: Result<Option<(Card, Card)>, ErrorKind>)
        ensures
            old(self)@.play_check(card) matches Err(e) ==> r == Err::<Option<(Card, Card)>, ErrorKind>(e)
                && final(self)@ == old(self)@,
            old(self)@.play_check(card) is Ok ==> r == Ok::<Option<(Card, Card)>, ErrorKind>(
                old(self)@.after_play(card).1,
            ) && final(self)@ == old(self)@.after_play(card).0,
    {
        let check = self.can_play_card(card);
        match check {
            Err(e) => {
                return Err(e);
            },
            Ok(_) => {},
        }
        let player_id = self.player_id_on_turn();
        self.remove_from_hand_of(player_id, card);
        match self.first_card_in_trick {
            Some(card_on_lead) => self.play_second_card(card, card_on_lead),
            None => {
                self.first_card_in_trick = Some(card);
                Ok(None)
            },
        }
    }

    fn play_second_card(&mut self, card: Card, card_on_lead: Card) -> (r: Result<
        Option<(Card, Card)>,
        ErrorKind,
    >)
        requires
            old(self)@.led == Some(card_on_lead),
        ensures
            ({
                let v = old(self)@;
                let w = if crate::rules::beats(card_on_lead, card, v.trump) {
                    v.lead
                } else {
                    v.turn()
                };
                let v1 = v.with_player(w, v.player(w).won(card_on_lead, card));
                let dealt = if !v1.stock.closed && v1.stock.slots.len() > 0 {
                    v1.after_deal(w)
                } else {
                    (v1, None)
                };
                let v2 = GameView { lead: w, led: None, ..dealt.0 };
                let v3 = if v2.player1.hand.len() == 0 || v2.player2.hand.len() == 0 {
                    GameView { winner: Some(w), ..v2 }
                } else {
                    v2
                };
                &&& final(self)@ == v3
                &&& r == Ok::<Option<(Card, Card)>, ErrorKind>(dealt.1)
            }),
    {
        let player_on_lead_wins = first_beats_second(card_on_lead, card, self.trump());
        let winning_player_id = if player_on_lead_wins {
            self.player_id_on_lead()
        } else {
            self.player_id_on_turn()
        };
        self.add_to_wins_of(winning_player_id, card_on_lead, card);
        let dealt_cards = self.deal_if_not_closed_or_empty(winning_player_id);
        self.player_on_lead = winning_player_id;
        self.first_card_in_trick = None;
        if self.player1.get_hand().len() == 0 || self.player2.get_hand().len() == 0 {
            self.winner = Some(winning_player_id);
        }
        Ok(dealt_cards)
    }

    fn deal_if_not_closed_or_empty(&mut self, winner_of_trick: PlayerId) -> (r: Option<(Card, Card)>)
        ensures
            ({
                let v = old(self)@;
                let dealt = if !v.stock.closed && v.stock.slots.len() > 0 {
                    v.after_deal(winner_of_trick)
                } else {
                    (v, None)
                };
                final(self)@ == dealt.0 && r == dealt.1
            }),
    {
        if self.is_closed() || self.stock.is_empty() {
            return None;
        }
        let winner_new_card = self.stock.deal();
        let loser_new_card = self.stock.deal();
        match (winner_new_card, loser_new_card) {
            (Some(winner_card), Some(loser_card)) => {
                self.add_to_hand_of(winner_of_trick, winner_card);
                self.add_to_hand_of(winner_of_trick.other(), loser_card);
                if winner_of_trick == PlayerId::Player1 {
                    Some((winner_card, loser_card))
                } else {
                    Some((loser_card, winner_card))
                }
            },
            _ => None,
        }
    }
}

/// A player state with the given hand and nothing else.
pub open spec fn fresh_player(hand: Seq<Card>) -> PlayerView {
    PlayerView { hand, wins: Seq::empty(), twenties: Seq::empty(), forty: None, records: true }
}

/// The position dealt from `deck`: player 1 gets the last five cards,
/// player 2 the five before them, the rest is the stock, whose first card
/// sets the trump suit. Player 1 leads.
pub open spec fn dealt_view(deck: Seq<Card>) -> GameView {
    let n = deck.len() as int;
    GameView {
        stock: StockView {
            slots: known_slots(deck.subrange(0, n - 10)),
            closed: false,
            shown: Some(deck[0].rank),
        },
        player1: fresh_player(deck.subrange(n - 5, n)),
        player2: fresh_player(deck.subrange(n - 10, n - 5)),
        trump: deck[0].suit,
        winner: None,
        lead: PlayerId::Player1,
        led: None,
    }
}

/// Deals a game from `deck`; none from a deck with an odd number of cards.
pub fn new_server_game(deck: Vec<Card>) -> (r: Option<Game<Stock>>)
    requires
        deck@.len() % 2 == 1 || deck@.len() > 10,
    ensures
        r is Some <==> deck@.len() % 2 == 0,
        r matches Some(g) ==> g@ == dealt_view(deck@),
{
    let ghost given = deck;
    let mut deck = deck;
    if deck.len() % 2 == 1 {
        return None;
    }
    let deck_length = deck.len();
    let hand1 = deck.split_off(deck_length - 5);
    let deck_length = deck.len();
    let hand2 = deck.split_off(deck_length - 5);
    let trump = deck[0].suit();
    let stock = Stock::new(StockData { cards: deck, closed: false });
    let player1 = Player::new(
        PlayerData {
            name: "Player1".to_string(),
            hand: hand1,
            wins: Vec::new(),
            twenties: Vec::new(),
            forty: None,
        },
    );
    let player2 = Player::new(
        PlayerData {
            name: "Player2".to_string(),
            hand: hand2,
            wins: Vec::new(),
            twenties: Vec::new(),
            forty: None,
        },
    );
    let game = Game {
        stock,
        player1: AnyPlayer::Known(player1),
        player2: AnyPlayer::Known(player2),
        trump,
        winner: None,
        player_on_lead: PlayerId::Player1,
        first_card_in_trick: None,
    };
    proof {
        let n = given@.len() as int;
        let d = dealt_view(given@);
        assert(hand1@ =~= given@.subrange(n - 5, n));
        assert(hand2@ =~= given@.subrange(n - 10, n - 5));
        assert(stock.cards() =~= given@.subrange(0, n - 10));
        assert(game@.player1 =~= d.player1);
        assert(game@.player2 =~= d.player2);
        assert(game@.stock.slots =~= d.stock.slots);
        assert(game@.stock =~= d.stock);
        assert(game@ =~= d);
    }
    Some(game)
}

impl Default for Game<Stock> {
    /// The game dealt from the unshuffled deck.
    fn default() -> (r: Self)
        ensures
            r@ == dealt_view(full_deck()),
    {
        new_server_game(generate_deck()).unwrap()
    }
}

/// Relies on rand's `IsaacRng::new_unseeded` and `Rng::shuffle`: the
/// shuffle only swaps elements, so the deck keeps its cards.
#[verifier::external_body]
fn shuffle_deck(deck: &mut Vec<Card>)
    ensures
        final(deck)@.len() == old(deck)@.len(),
        final(deck)@.to_multiset() == old(deck)@.to_multiset(),
{
    let mut rng = rand::isaac::IsaacRng::new_unseeded();
    rand::Rng::shuffle(&mut rng, deck.as_mut_slice());
}

/// Deals a game from a shuffled deck.
pub fn new_random_server_game() -> (r: Game<Stock>)
    ensures
        exists|deck: Seq<Card>|
            deck.to_multiset() == full_deck().to_multiset() && r@ == dealt_view(deck),
{
    let mut deck = generate_deck();
    shuffle_deck(&mut deck);
    let game = new_server_game(deck);
    game.unwrap()
}

/// A game as one player sees it: that player's own state is known, the
/// opponent is a stand-in with an empty hand and no score.
pub fn new_client_game(
    player_id: PlayerId,
    winner: Option<PlayerId>,
    trump: Suit,
    first_card_in_trick: Option<Card>,
    stock: DummyStock,
    player_on_lead: PlayerId,
    hand: Vec<Card>,
    wins: Vec<Card>,
    twenties: Vec<Suit>,
    forty: Option<Suit>,
) -> (r: Game<DummyStock>)
    ensures
        r@.player(player_id) == (PlayerView {
            hand: hand@,
            wins: wins@,
            twenties: twenties@,
            forty,
            records: true,
        }),
        r@.player(player_id.opponent()) == (PlayerView {
            hand: Seq::empty(),
            wins: Seq::empty(),
            twenties: Seq::empty(),
            forty: None,
            records: false,
        }),
        r@.stock == stock_view(&stock),
        r@.trump == trump,
        r@.winner == winner,
        r@.lead == player_on_lead,
        r@.led == first_card_in_trick,
{
    let real_player = AnyPlayer::Known(
        Player::new(PlayerData { name: String::new(), hand, wins, twenties, forty }),
    );
    let dummy_player = AnyPlayer::Hidden(DummyPlayer);
    let (player1, player2) = match player_id {
        PlayerId::Player1 => (real_player, dummy_player),
        PlayerId::Player2 => (dummy_player, real_player),
    };
    Game { winner, stock, trump, player1, player2, player_on_lead, first_card_in_trick }
}

} // verus!
