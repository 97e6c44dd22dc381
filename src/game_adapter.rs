use vstd::prelude::*;
use crate::game::{dealt_view, Game};
use crate::player::PlayerId;
use crate::rules::{full_deck, ErrorKind};
use crate::state::GameView;
use crate::stock::Stock;

verus! {

/// Guards a game: hands it out for commands only to the seat whose turn it is.
pub struct GameAdapter {
    game: Game<Stock>,
}

impl View for GameAdapter {
    type V = GameView;

    closed spec fn view(&self) -> GameView {
        self.game@
    }
}

impl Default for GameAdapter {
    fn default() -> (r: Self)
        ensures
            r@ == dealt_view(full_deck()),
    {
        GameAdapter::new(Game::default())
    }
}

impl GameAdapter {
    pub fn new(game: Game<Stock>) -> (r: GameAdapter)
        ensures
            r@ == game@,
    {
        GameAdapter { game }
    }

    /// The game, for the seat `player` to issue a command; `NotPlayersTurn`
    /// if it is the other seat's turn.
    pub fn get_game_as_player(&mut self, player: PlayerId) -> (r: Result<&mut Game<Stock>, ErrorKind>)
        ensures
            r is Ok <==> old(self)@.turn() == player,
            r matches Err(e) ==> e == ErrorKind::NotPlayersTurn && final(self)@ == old(self)@,
            r matches Ok(g) ==> g@ == old(self)@ && final(self)@ == final(g)@,
    {
        if self.game.player_id_on_turn() == player {
            Ok(&mut self.game)
        } else {
            Err(ErrorKind::NotPlayersTurn)
        }
    }

    pub fn get_game_view(&self) -> (r: &Game<Stock>)
        ensures
            r@ == self@,
    {
        &self.game
    }
}

} // verus!
