use vstd::prelude::*;
use crate::cards::{Card, Suit};
use crate::player::PlayerId;

verus! {

/// The part of a game both seats see.
#[derive(Debug, Clone, Copy, PartialEq, Eq, Structural)]
pub struct PublicGameData {
    pub trump: Suit,
    pub closed: bool,
    pub winner: Option<PlayerId>,
    pub player_on_lead: PlayerId,
    pub first_card_in_trick: Option<Card>,
}

impl Default for PublicGameData {
    fn default() -> (r: PublicGameData)
        ensures
            r == (PublicGameData {
                trump: Suit::Hearts,
                closed: false,
                winner: None,
                player_on_lead: PlayerId::Player1,
                first_card_in_trick: None,
            }),
    {
        PublicGameData {
            trump: Suit::Hearts,
            closed: false,
            winner: None,
            player_on_lead: PlayerId::Player1,
            first_card_in_trick: None,
        }
    }
}

impl PublicGameData {
    /// The seat to act: the lead, or its opponent once a card is led.
    pub open spec fn turn(self) -> PlayerId {
        if self.first_card_in_trick is Some {
            self.player_on_lead.opponent()
        } else {
            self.player_on_lead
        }
    }

    pub fn player_on_lead(&self) -> (r: PlayerId)
        ensures
            r == self.player_on_lead,
    {
        self.player_on_lead
    }

    pub fn player_on_turn(&self) -> (r: PlayerId)
        ensures
            r == self.turn(),
    {
        match self.first_card_in_trick {
            Some(_) => self.player_on_lead.other(),
            None => self.player_on_lead,
        }
    }

    pub fn is_closed(&self) -> (r: bool)
        ensures
            r == self.closed,
    {
        self.closed
    }

    pub fn is_game_over(&self) -> (r: bool)
        ensures
            r == self.winner is Some,
    {
        self.winner.is_some()
    }
}

} // verus!
