use vstd::prelude::*;
use crate::game_adapter::GameAdapter;
use crate::laws::lemma_step;
use crate::message::{
    describes, game_to_game_state, FullStateUpdate, Request, RequestData, Response,
};
use crate::player::PlayerId;
use crate::rules::ErrorKind;
use crate::state::GameView;

verus! {

/// The result of `data` issued by the seat `player` in the game `v`.
pub open spec fn request_outcome(v: GameView, player: PlayerId, data: RequestData) -> Result<
    (),
    ErrorKind,
> {
    if v.turn() != player {
        Err(ErrorKind::NotPlayersTurn)
    } else {
        match v.apply(data) {
            Ok(_) => Ok(()),
            Err(e) => Err(e),
        }
    }
}

/// Runs the requests of both seats against one game and numbers the
/// snapshots it hands out.
pub struct MessageHandler {
    state_number: u32,
    game_adapter: GameAdapter,
}

impl MessageHandler {
    pub closed spec fn game(&self) -> GameView {
        self.game_adapter@
    }

    pub closed spec fn number(&self) -> u32 {
        self.state_number
    }

    pub fn new(game_adapter: GameAdapter) -> (r: MessageHandler)
        ensures
            r.game() == game_adapter@,
            r.number() == 0,
    {
        MessageHandler { state_number: 0, game_adapter }
    }

    /// Applies the request of seat `player_id`. On success the state number
    /// advances and both seats get a fresh snapshot; on failure nothing
    /// changes.
    pub fn handle_request(&mut self, player_id: PlayerId, request: Request) -> (r: (
        Response,
        Option<FullStateUpdate>,
        Option<FullStateUpdate>,
    ))
        requires
            old(self).game().wf(),
            old(self).number() < u32::MAX,
        ensures
            final(self).game().wf(),
            r.0.request_id == request.id,
            r.0.result == request_outcome(old(self).game(), player_id, request.data),
            r.0.result is Ok ==> {
                &&& final(self).game() == old(self).game().apply(request.data)->Ok_0
                &&& final(self).number() == old(self).number() + 1
                &&& r.1 matches Some(u1) && u1.state_number == final(self).number() && describes(
                    u1.state,
                    final(self).game(),
                    PlayerId::Player1,
                )
                &&& r.2 matches Some(u2) && u2.state_number == final(self).number() && describes(
                    u2.state,
                    final(self).game(),
                    PlayerId::Player2,
                )
            },
            r.0.result is Err ==> final(self).game() == old(self).game() && final(self).number()
                == old(self).number() && r.1 is None && r.2 is None,
    {
        let response_res = self.response_result(player_id, &request);
        let response = Response { request_id: request.id, result: response_res };
        if response_res.is_ok() {
            self.state_number = self.state_number + 1;
            let player1_state = game_to_game_state(
                PlayerId::Player1,
                self.game_adapter.get_game_view(),
            );
            let player2_state = game_to_game_state(
                PlayerId::Player2,
                self.game_adapter.get_game_view(),
            );
            let full_state1 = FullStateUpdate {
                state_number: self.state_number,
                state: player1_state,
            };
            let full_state2 = FullStateUpdate {
                state_number: self.state_number,
                state: player2_state,
            };
            (response, Some(full_state1), Some(full_state2))
        } else {
            (response, None, None)
        }
    }

    fn response_result(&mut self, player_id: PlayerId, request: &Request) -> (r: Result<
        (),
        ErrorKind,
    >)
        requires
            old(self).game().wf(),
        ensures
            r == request_outcome(old(self).game(), player_id, request.data),
            r is Ok ==> final(self).game() == old(self).game().apply(request.data)->Ok_0,
            r is Err ==> final(self).game() == old(self).game(),
            final(self).game().wf(),
            final(self).number() == old(self).number(),
    {
        let game = match self.game_adapter.get_game_as_player(player_id) {
            Ok(game) => game,
            Err(e) => {
                return Err(e);
            },
        };
        let result = match request.data {
            RequestData::Close => game.close(),
            RequestData::ExchangeTrump => game.exchange_trump(),
            RequestData::PlayTwenty(card) => game.play_card_twenty(card),
            RequestData::TwentyDeclareWin(suit) => game.declare_twenty_win(suit),
            RequestData::PlayForty(card) => game.play_card_forty(card),
            RequestData::FortyDeclareWin => game.declare_forty_win(),
            RequestData::DeclareWin => game.declare_win(),
            RequestData::PlayCard(card) => match game.play_card(card) {
                Ok(_) => Ok(()),
                Err(e) => Err(e),
            },
        };
        proof {
            if result is Ok {
                lemma_step(old(self).game(), request.data);
            }
        }
        result
    }
}

} // verus!
