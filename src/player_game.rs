use vstd::prelude::*;
use crate::cards::{Card, Rank, Suit};
use crate::game_data::PublicGameData;
use crate::player::{IPlayer, Player, PlayerId, PlayerView};
use crate::rules::{beats, endgame_answer, first_beats_second, hand_contains, legal_second_card_in_endgame, suit_contains, ErrorKind, WINNING_SCORE};
use crate::state::{is_pair_rank, partner_rank, FORTY_WIN_SCORE, TWENTY_WIN_SCORE};

verus! {

/// One seat's own view of a game: its player state, the stock as a count
/// and the trump-indicator rank, and the public data. Commands are checked
/// and applied as far as this seat can see them.
#[derive(Debug)]
pub struct PlayerGame {
    pub player_id: PlayerId,
    pub player: Player,
    pub stock_size: u32,
    pub trump_card_rank: Option<Rank>,
    pub public_data: PublicGameData,
}

impl PlayerGame {
    /// A rank is on show whenever the stock is open and not empty.
    pub open spec fn shows_trump(&self) -> bool {
        !self.public_data.closed && self.stock_size > 0 ==> self.trump_card_rank is Some
    }

    pub open spec fn seat_check(&self) -> Result<(), ErrorKind> {
        if self.public_data.turn() != self.player_id {
            Err(ErrorKind::NotPlayersTurn)
        } else if self.public_data.player_on_lead != self.player_id {
            Err(ErrorKind::PlayerNotOnLead)
        } else {
            Ok(())
        }
    }

    pub open spec fn close_check(&self) -> Result<(), ErrorKind> {
        if self.seat_check() is Err {
            self.seat_check()
        } else if self.public_data.winner is Some {
            Err(ErrorKind::GameOver)
        } else if self.public_data.closed {
            Err(ErrorKind::DeckClosed)
        } else if self.stock_size <= 2 {
            Err(ErrorKind::NotEnoughCardsInStock)
        } else {
            Ok(())
        }
    }

    pub open spec fn exchange_check(&self) -> Result<(), ErrorKind> {
        let unter = Card { suit: self.public_data.trump, rank: Rank::Unter };
        if self.close_check() is Err {
            self.close_check()
        } else if !self.player@.hand.contains(unter) {
            Err(ErrorKind::NoSuchCardInHand(unter))
        } else {
            Ok(())
        }
    }

    pub open spec fn score_error(&self, threshold: nat) -> Result<(), ErrorKind> {
        if self.player@.score() < threshold {
            Err(ErrorKind::ScoreTooLow(self.player@.score() as u32))
        } else {
            Ok(())
        }
    }

    pub open spec fn declare_win_check(&self) -> Result<(), ErrorKind> {
        if self.seat_check() is Err {
            self.seat_check()
        } else if self.public_data.winner is Some {
            Err(ErrorKind::GameOver)
        } else {
            self.score_error(WINNING_SCORE as nat)
        }
    }

    pub open spec fn twenty_check(&self, card: Card) -> Result<(), ErrorKind> {
        let hand = self.player@.hand;
        let other = Card { suit: card.suit, rank: partner_rank(card.rank) };
        if self.seat_check() is Err {
            self.seat_check()
        } else if !is_pair_rank(card.rank) {
            Err(ErrorKind::NotTwentyCard(card))
        } else if self.public_data.winner is Some {
            Err(ErrorKind::GameOver)
        } else if !hand.contains(card) {
            Err(ErrorKind::NoSuchCardInHand(card))
        } else if !hand.contains(other) {
            Err(ErrorKind::NoSuchCardInHand(other))
        } else if self.player@.twenties.contains(card.suit) {
            Err(ErrorKind::AlreadyCalledThisTwenty(card.suit))
        } else if card.suit == self.public_data.trump {
            Err(ErrorKind::TwentyWithTrumpSuit)
        } else {
            Ok(())
        }
    }

    pub open spec fn twenty_win_check(&self, suit: Suit) -> Result<(), ErrorKind> {
        let check = self.twenty_check(Card { suit, rank: Rank::King });
        if check is Err {
            check
        } else {
            self.score_error(TWENTY_WIN_SCORE as nat)
        }
    }

    pub open spec fn forty_check(&self, card: Card) -> Result<(), ErrorKind> {
        let hand = self.player@.hand;
        let trump = self.public_data.trump;
        let ober = Card { suit: trump, rank: Rank::Ober };
        let king = Card { suit: trump, rank: Rank::King };
        if self.seat_check() is Err {
            self.seat_check()
        } else if !is_pair_rank(card.rank) || card.suit != trump {
            Err(ErrorKind::NotFortyCard(card))
        } else if self.public_data.winner is Some {
            Err(ErrorKind::GameOver)
        } else if !hand.contains(ober) {
            Err(ErrorKind::NoSuchCardInHand(ober))
        } else if !hand.contains(king) {
            Err(ErrorKind::NoSuchCardInHand(king))
        } else if self.player@.forty is Some {
            Err(ErrorKind::AlreadyCalledForty)
        } else {
            Ok(())
        }
    }

    pub open spec fn forty_win_check(&self) -> Result<(), ErrorKind> {
        let check = self.forty_check(Card { suit: self.public_data.trump, rank: Rank::King });
        if check is Err {
            check
        } else {
            self.score_error(FORTY_WIN_SCORE as nat)
        }
    }

    pub open spec fn play_check(&self, card: Card) -> Result<(), ErrorKind> {
        let hand = self.player@.hand;
        if self.public_data.turn() != self.player_id {
            Err(ErrorKind::NotPlayersTurn)
        } else if self.public_data.winner is Some {
            Err(ErrorKind::GameOver)
        } else if !hand.contains(card) {
            Err(ErrorKind::NoSuchCardInHand(card))
        } else {
            match self.public_data.first_card_in_trick {
                None => Ok(()),
                Some(led) => if self.public_data.closed || self.stock_size == 0 {
                    endgame_answer(led, hand, card, self.public_data.trump)
                } else {
                    Ok(())
                },
            }
        }
    }

    pub fn player_on_lead(&self) -> (r: PlayerId)
        ensures
            r == self.public_data.player_on_lead,
    {
        self.public_data.player_on_lead()
    }

    fn on_lead(&self) -> (r: Result<(), ErrorKind>)
        ensures
            r is Ok <==> self.public_data.player_on_lead == self.player_id,
            r is Err ==> r == Err::<(), ErrorKind>(ErrorKind::PlayerNotOnLead),
    {
        if self.player_on_lead() == self.player_id {
            Ok(())
        } else {
            Err(ErrorKind::PlayerNotOnLead)
        }
    }

    fn on_turn(&self) -> (r: Result<(), ErrorKind>)
        ensures
            r is Ok <==> self.public_data.turn() == self.player_id,
            r is Err ==> r == Err::<(), ErrorKind>(ErrorKind::NotPlayersTurn),
    {
        if self.public_data.player_on_turn() == self.player_id {
            Ok(())
        } else {
            Err(ErrorKind::NotPlayersTurn)
        }
    }

    fn seat(&self) -> (r: Result<(), ErrorKind>)
        ensures
            r == self.seat_check(),
    {
        if self.on_turn().is_err() {
            Err(ErrorKind::NotPlayersTurn)
        } else if self.on_lead().is_err() {
            Err(ErrorKind::PlayerNotOnLead)
        } else {
            Ok(())
        }
    }

    pub fn can_close(&self) -> (r: Result<(), ErrorKind>)
        ensures
            r == self.close_check(),
    {
        let seat = self.seat();
        if seat.is_err() {
            return seat;
        }
        if self.public_data.is_game_over() {
            Err(ErrorKind::GameOver)
        } else if self.public_data.is_closed() {
            Err(ErrorKind::DeckClosed)
        } else if self.stock_size <= 2 {
            Err(ErrorKind::NotEnoughCardsInStock)
        } else {
            Ok(())
        }
    }

    pub fn can_exchange_trump(&self) -> (r: Result<(), ErrorKind>)
        ensures
            r == self.exchange_check(),
    {
        let check = self.can_close();
        if check.is_err() {
            return check;
        }
        let trump_unter = Card::new(self.public_data.trump, Rank::Unter);
        if hand_contains(self.player.get_hand(), trump_unter) {
            Ok(())
        } else {
            Err(ErrorKind::NoSuchCardInHand(trump_unter))
        }
    }

    pub fn can_declare_win(&self) -> (r: Result<(), ErrorKind>)
        requires
            self.player@.score() <= u32::MAX,
        ensures
            r == self.declare_win_check(),
    {
        let seat = self.seat();
        if seat.is_err() {
            return seat;
        }
        if self.public_data.is_game_over() {
            return Err(ErrorKind::GameOver);
        }
        let player_score = self.player.score();
        if player_score < WINNING_SCORE {
            Err(ErrorKind::ScoreTooLow(player_score))
        } else {
            Ok(())
        }
    }

    pub fn can_play_card_twenty(&self, card: Card) -> (r: Result<(), ErrorKind>)
        ensures
            r == self.twenty_check(card),
    {
        let seat = self.seat();
        if seat.is_err() {
            return seat;
        }
        if card.rank() != Rank::Ober && card.rank() != Rank::King {
            return Err(ErrorKind::NotTwentyCard(card));
        }
        if self.public_data.is_game_over() {
            return Err(ErrorKind::GameOver);
        }
        let other_rank_in_twenty = if card.rank() == Rank::Ober {
            Rank::King
        } else {
            Rank::Ober
        };
        let suit = card.suit();
        let other_card_in_twenty = Card::new(suit, other_rank_in_twenty);
        if !hand_contains(self.player.get_hand(), card) {
            Err(ErrorKind::NoSuchCardInHand(card))
        } else if !hand_contains(self.player.get_hand(), other_card_in_twenty) {
            Err(ErrorKind::NoSuchCardInHand(other_card_in_twenty))
        } else if suit_contains(self.player.get_twenties(), suit) {
            Err(ErrorKind::AlreadyCalledThisTwenty(suit))
        } else if suit == self.public_data.trump {
            Err(ErrorKind::TwentyWithTrumpSuit)
        } else {
            Ok(())
        }
    }

    pub fn can_declare_twenty_win(&self, suit: Suit) -> (r: Result<(), ErrorKind>)
        requires
            self.player@.score() <= u32::MAX,
        ensures
            r == self.twenty_win_check(suit),
    {
        let check = self.can_play_card_twenty(Card::new(suit, Rank::King));
        if check.is_err() {
            return check;
        }
        let score = self.player.score();
        if score >= TWENTY_WIN_SCORE {
            Ok(())
        } else {
            Err(ErrorKind::ScoreTooLow(score))
        }
    }

    pub fn can_play_card_forty(&self, card: Card) -> (r: Result<(), ErrorKind>)
        ensures
            r == self.forty_check(card),
    {
        let seat = self.seat();
        if seat.is_err() {
            return seat;
        }
        let trump = self.public_data.trump;
        if card.rank() != Rank::Ober && card.rank() != Rank::King || card.suit() != trump {
            return Err(ErrorKind::NotFortyCard(card));
        }
        if self.public_data.is_game_over() {
            return Err(ErrorKind::GameOver);
        }
        let ober = Card::new(trump, Rank::Ober);
        let king = Card::new(trump, Rank::King);
        if !hand_contains(self.player.get_hand(), ober) {
            Err(ErrorKind::NoSuchCardInHand(ober))
        } else if !hand_contains(self.player.get_hand(), king) {
            Err(ErrorKind::NoSuchCardInHand(king))
        } else if self.player.get_forty().is_some() {
            Err(ErrorKind::AlreadyCalledForty)
        } else {
            Ok(())
        }
    }

    pub fn can_declare_forty_win(&self) -> (r: Result<(), ErrorKind>)
        requires
            self.player@.score() <= u32::MAX,
        ensures
            r == self.forty_win_check(),
    {
        let trump = self.public_data.trump;
        let check = self.can_play_card_forty(Card::new(trump, Rank::King));
        if check.is_err() {
            return check;
        }
        let score = self.player.score();
        if score >= FORTY_WIN_SCORE {
            Ok(())
        } else {
            Err(ErrorKind::ScoreTooLow(score))
        }
    }

    pub fn can_play_card(&self, card: Card) -> (r: Result<(), ErrorKind>)
        ensures
            r == self.play_check(card),
    {
        let turn = self.on_turn();
        if turn.is_err() {
            return turn;
        }
        if self.public_data.is_game_over() {
            return Err(ErrorKind::GameOver);
        }
        if !hand_contains(self.player.get_hand(), card) {
            return Err(ErrorKind::NoSuchCardInHand(card));
        }
        match self.public_data.first_card_in_trick {
            None => Ok(()),
            Some(first_card) => self.can_play_card_as_2nd_player(first_card, card),
        }
    }

    fn can_play_card_as_2nd_player(&self, first_card: Card, card: Card) -> (r: Result<
        (),
        ErrorKind,
    >)
        ensures
            r == (if self.public_data.closed || self.stock_size == 0 {
                endgame_answer(first_card, self.player@.hand, card, self.public_data.trump)
            } else {
                Ok(())
            }),
    {
        let is_endgame = self.public_data.is_closed() || self.stock_size == 0;
        if !is_endgame {
            return Ok(());
        }
        legal_second_card_in_endgame(
            first_card,
            self.player.get_hand(),
            card,
            self.public_data.trump,
        )
    }

    pub fn close(&mut self) -> (r: Result<(), ErrorKind>)
        ensures
            r == old(self).close_check(),
            r is Ok ==> final(self).public_data == (PublicGameData {
                closed: true,
                ..old(self).public_data
            }) && final(self).player == old(self).player && final(self).stock_size == old(self).stock_size && final(self).trump_card_rank == old(self).trump_card_rank
                && final(self).player_id == old(self).player_id,
            r is Err ==> *final(self) == *old(self),
    {
        let can_close = self.can_close();
        if can_close.is_ok() {
            self.public_data.closed = true;
        }
        can_close
    }

    /// Trades this seat's trump Unter for the trump-indicator card, which
    /// becomes the Unter.
    pub fn exchange_trump(&mut self) -> (r: Result<(), ErrorKind>)
        requires
            old(self).shows_trump(),
        ensures
            r == old(self).exchange_check(),
            r is Ok ==> final(self).player@ == old(self).player@.without(
                Card { suit: old(self).public_data.trump, rank: Rank::Unter },
            ).gain(
                Card { suit: old(self).public_data.trump, rank: old(self).trump_card_rank.unwrap() },
            ) && final(self).trump_card_rank == Some(Rank::Unter) && final(self).public_data
                == old(self).public_data && final(self).stock_size == old(self).stock_size
                && final(self).player_id == old(self).player_id,
            r is Err ==> *final(self) == *old(self),
    {
        let can_exchange_trump = self.can_exchange_trump();
        if can_exchange_trump.is_err() {
            return can_exchange_trump;
        }
        let trump = self.public_data.trump;
        // A rank is on show here: the stock is open and holds cards.
        let rank = match self.trump_card_rank {
            Some(rank) => rank,
            None => {
                return can_exchange_trump;
            },
        };
        self.player.remove_from_hand(Card::new(trump, Rank::Unter));
        self.player.add_to_hand(Card::new(trump, rank));
        self.trump_card_rank = Some(Rank::Unter);
        can_exchange_trump
    }

    fn set_winner(&mut self)
        ensures
            final(self).public_data == (PublicGameData {
                winner: Some(old(self).player_id),
                ..old(self).public_data
            }),
            final(self).player == old(self).player,
            final(self).stock_size == old(self).stock_size,
            final(self).trump_card_rank == old(self).trump_card_rank,
            final(self).player_id == old(self).player_id,
    {
        self.public_data.winner = Some(self.player_id);
    }

    pub fn declare_win(&mut self) -> (r: Result<(), ErrorKind>)
        requires
            old(self).player@.score() <= u32::MAX,
        ensures
            r == old(self).declare_win_check(),
            r is Ok ==> final(self).public_data == (PublicGameData {
                winner: Some(old(self).player_id),
                ..old(self).public_data
            }) && final(self).player == old(self).player && final(self).stock_size == old(self).stock_size && final(self).trump_card_rank == old(self).trump_card_rank
                && final(self).player_id == old(self).player_id,
            r is Err ==> *final(self) == *old(self),
    {
        let can_declare_win = self.can_declare_win();
        if can_declare_win.is_ok() {
            self.set_winner();
        }
        can_declare_win
    }

    pub fn declare_twenty_win(&mut self, suit: Suit) -> (r: Result<(), ErrorKind>)
        requires
            old(self).player@.score() <= u32::MAX,
        ensures
            r == old(self).twenty_win_check(suit),
            r is Ok ==> final(self).public_data == (PublicGameData {
                winner: Some(old(self).player_id),
                ..old(self).public_data
            }) && final(self).player == old(self).player && final(self).stock_size == old(self).stock_size && final(self).trump_card_rank == old(self).trump_card_rank
                && final(self).player_id == old(self).player_id,
            r is Err ==> *final(self) == *old(self),
    {
        let can_declare_twenty_win = self.can_declare_twenty_win(suit);
        if can_declare_twenty_win.is_ok() {
            self.set_winner();
        }
        can_declare_twenty_win
    }

    pub fn declare_forty_win(&mut self) -> (r: Result<(), ErrorKind>)
        requires
            old(self).player@.score() <= u32::MAX,
        ensures
            r == old(self).forty_win_check(),
            r is Ok ==> final(self).public_data == (PublicGameData {
                winner: Some(old(self).player_id),
                ..old(self).public_data
            }) && final(self).player == old(self).player && final(self).stock_size == old(self).stock_size && final(self).trump_card_rank == old(self).trump_card_rank
                && final(self).player_id == old(self).player_id,
            r is Err ==> *final(self) == *old(self),
    {
        let can_declare_forty_win = self.can_declare_forty_win();
        if can_declare_forty_win.is_ok() {
            self.set_winner();
        }
        can_declare_forty_win
    }

    /// This seat's player state, public data, stock count and result after
    /// it plays `card`.
    pub open spec fn after_play(&self, card: Card) -> (
        PlayerView,
        PublicGameData,
        u32,
        Option<(PlayerId, Card)>,
    ) {
        let id = self.player_id;
        let pd = self.public_data;
        let p0 = self.player@.without(card);
        match pd.first_card_in_trick {
            None => (p0, PublicGameData { first_card_in_trick: Some(card), ..pd }, self.stock_size, None),
            Some(led) => {
                let w = if beats(led, card, pd.trump) {
                    id.opponent()
                } else {
                    id
                };
                let p1 = if w == id {
                    p0.won(led, card)
                } else {
                    p0
                };
                let will_deal = !pd.closed && self.stock_size > 0;
                let winner = if !will_deal && p1.hand.len() == 0 {
                    Some(w)
                } else {
                    pd.winner
                };
                let stock_size = if !will_deal {
                    self.stock_size
                } else if self.stock_size >= 2 {
                    (self.stock_size - 2) as u32
                } else {
                    0u32
                };
                (
                    p1,
                    PublicGameData { player_on_lead: w, first_card_in_trick: None, winner, ..pd },
                    stock_size,
                    Some((w, led)),
                )
            },
        }
    }

    /// Plays `card`. As the second card of a trick it resolves the trick and
    /// returns the trick's winner and the card that was led.
    pub fn play_card(&mut self, card: Card) -> (r: Result<Option<(PlayerId, Card)>, ErrorKind>)
        ensures
            old(self).play_check(card) matches Err(e) ==> r == Err::<
                Option<(PlayerId, Card)>,
                ErrorKind,
            >(e) && *final(self) == *old(self),
            old(self).play_check(card) is Ok ==> {
                let (p, pd, n, res) = old(self).after_play(card);
                &&& r == Ok::<Option<(PlayerId, Card)>, ErrorKind>(res)
                &&& final(self).player@ == p
                &&& final(self).public_data == pd
                &&& final(self).stock_size == n
                &&& final(self).trump_card_rank == old(self).trump_card_rank
                &&& final(self).player_id == old(self).player_id
            },
    {
        let check = self.can_play_card(card);
        match check {
            Err(e) => {
                return Err(e);
            },
            Ok(_) => {},
        }
        self.player.remove_from_hand(card);
        match self.public_data.first_card_in_trick {
            None => {
                self.public_data.first_card_in_trick = Some(card);
                Ok(None)
            },
            Some(card_on_lead) => {
                let player_on_lead_wins = first_beats_second(
                    card_on_lead,
                    card,
                    self.public_data.trump,
                );
                let winning_player_id = if player_on_lead_wins {
                    self.player_id.other()
                } else {
                    self.player_id
                };
                if self.player_id == winning_player_id {
                    self.player.add_to_wins(card_on_lead, card);
                }
                self.public_data.player_on_lead = winning_player_id;
                self.public_data.first_card_in_trick = None;
                let will_deal = !self.public_data.is_closed() && self.stock_size > 0;
                let hand_empty = self.player.get_hand().len() == 0;
                if !will_deal && hand_empty {
                    self.public_data.winner = Some(winning_player_id);
                }
                if will_deal {
                    if self.stock_size >= 2 {
                        self.stock_size = self.stock_size - 2;
                    } else {
                        self.stock_size = 0;
                    }
                }
                Ok(Some((winning_player_id, card_on_lead)))
            },
        }
    }

    /// Declares a twenty in the suit of `card` and leads `card`, in one step.
    pub fn play_card_twenty(&mut self, card: Card) -> (r: Result<(), ErrorKind>)
        ensures
            r == old(self).twenty_check(card),
            r is Ok ==> {
                let (p, pd, n, res) = old(self).after_play(card);
                &&& final(self).player@ == old(self).player@.with_twenty(card.suit).without(card)
                &&& final(self).public_data == pd
                &&& final(self).stock_size == n
                &&& final(self).trump_card_rank == old(self).trump_card_rank
                &&& final(self).player_id == old(self).player_id
            },
            r is Err ==> *final(self) == *old(self),
    {
        let check = self.can_play_card_twenty(card);
        if check.is_err() {
            return check;
        }
        self.player.add_twenty(card.suit());
        match self.play_card(card) {
            Ok(_) => Ok(()),
            Err(e) => Err(e),
        }
    }

    /// Declares the forty and leads `card`, the trump Ober or King, in one step.
    pub fn play_card_forty(&mut self, card: Card) -> (r: Result<(), ErrorKind>)
        ensures
            r == old(self).forty_check(card),
            r is Ok ==> {
                let (p, pd, n, res) = old(self).after_play(card);
                &&& final(self).player@ == old(self).player@.with_forty(
                    old(self).public_data.trump,
                ).without(card)
                &&& final(self).public_data == pd
                &&& final(self).stock_size == n
                &&& final(self).trump_card_rank == old(self).trump_card_rank
                &&& final(self).player_id == old(self).player_id
            },
            r is Err ==> *final(self) == *old(self),
    {
        let check = self.can_play_card_forty(card);
        if check.is_err() {
            return check;
        }
        let trump = self.public_data.trump;
        self.player.add_forty(trump);
        match self.play_card(card) {
            Ok(_) => Ok(()),
            Err(e) => Err(e),
        }
    }
}

} // verus!
