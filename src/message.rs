use vstd::prelude::*;
use crate::cards::{Card, Rank, Suit};
use crate::game::{new_client_game, Game};
use crate::player::{IPlayer, PlayerId, PlayerView};
use crate::rules::ErrorKind;
use crate::state::GameView;
use crate::stock::{DummyStock, IStock};

verus! {

/// The commands a player can issue.
#[derive(Clone, Copy, Debug, PartialEq, Eq, Structural)]
pub enum RequestData {
    Close,
    ExchangeTrump,
    PlayTwenty(Card),
    TwentyDeclareWin(Suit),
    PlayForty(Card),
    FortyDeclareWin,
    DeclareWin,
    PlayCard(Card),
}

/// A command with the identifier the caller gave it.
#[derive(Clone, Copy, Debug, PartialEq, Eq, Structural)]
pub struct Request {
    pub id: u32,
    pub data: RequestData,
}

/// The outcome of the request with identifier `request_id`.
#[derive(Clone, Copy, Debug)]
pub struct Response {
    pub request_id: u32,
    pub result: Result<(), ErrorKind>,
}

/// All one seat may know of a game: the public state and its own player
/// state, never the opponent's hand.
#[derive(Clone, Debug, PartialEq, Eq)]
pub struct FullPlayerGameState {
    pub winner: Option<PlayerId>,
    pub trump: Suit,
    pub first_card_in_trick: Option<Card>,
    pub stock_size: u32,
    pub trump_card_rank: Option<Rank>,
    pub stock_closed: bool,
    pub on_lead: PlayerId,
    pub hand: Vec<Card>,
    pub wins: Vec<Card>,
    pub twenties: Vec<Suit>,
    pub forty: Option<Suit>,
}

/// A snapshot with its sequence number.
#[derive(Clone, Debug, PartialEq, Eq)]
pub struct FullStateUpdate {
    pub state_number: u32,
    pub state: FullPlayerGameState,
}

/// Whether `s` is the snapshot of `v` for the seat `id`.
pub open spec fn describes(s: FullPlayerGameState, v: GameView, id: PlayerId) -> bool {
    &&& s.winner == v.winner
    &&& s.trump == v.trump
    &&& s.first_card_in_trick == v.led
    &&& s.stock_size == v.stock.slots.len() as u32
    &&& s.trump_card_rank == v.stock.shown
    &&& s.stock_closed == v.stock.closed
    &&& s.on_lead == v.lead
    &&& s.hand@ == v.player(id).hand
    &&& s.wins@ == v.player(id).wins
    &&& s.twenties@ == v.player(id).twenties
    &&& s.forty == v.player(id).forty
}

/// Whether `v` is the game that the seat `id` rebuilds from its snapshot
/// `s`: its own state as the snapshot gives it, the opponent a stand-in.
pub open spec fn rebuilt_from(v: GameView, s: FullPlayerGameState, id: PlayerId) -> bool {
    &&& v.player(id) == (PlayerView {
        hand: s.hand@,
        wins: s.wins@,
        twenties: s.twenties@,
        forty: s.forty,
        records: true,
    })
    &&& !v.player(id.opponent()).records
    &&& v.player(id.opponent()).hand.len() == 0
    &&& v.stock.slots.len() == s.stock_size
    &&& v.stock.closed == s.stock_closed
    &&& v.stock.shown == (if s.stock_closed || s.stock_size == 0 {
        None
    } else {
        s.trump_card_rank
    })
    &&& v.trump == s.trump
    &&& v.winner == s.winner
    &&& v.lead == s.on_lead
    &&& v.led == s.first_card_in_trick
}

/// Snapshot round trip: the seat `id` rebuilds its game from snapshot `s`
/// and takes its snapshot again; it gets back what `s` holds, whenever `s`
/// shows a trump rank exactly while its stock is open and not empty.
pub proof fn lemma_snapshot_round_trip(
    s: FullPlayerGameState,
    id: PlayerId,
    v: GameView,
    t: FullPlayerGameState,
)
    requires
        rebuilt_from(v, s, id),
        describes(t, v, id),
        s.trump_card_rank is Some <==> !s.stock_closed && s.stock_size > 0,
    ensures
        t.winner == s.winner,
        t.trump == s.trump,
        t.first_card_in_trick == s.first_card_in_trick,
        t.stock_size == s.stock_size,
        t.trump_card_rank == s.trump_card_rank,
        t.stock_closed == s.stock_closed,
        t.on_lead == s.on_lead,
        t.hand@ == s.hand@,
        t.wins@ == s.wins@,
        t.twenties@ == s.twenties@,
        t.forty == s.forty,
{
}

/// The snapshot of `game` for the seat `player_id`.
pub fn game_to_game_state<STOCK: IStock>(player_id: PlayerId, game: &Game<STOCK>) -> (r:
    FullPlayerGameState)
    ensures
        describes(r, game@, player_id),
{
    let player = game.get_player(player_id);
    FullPlayerGameState {
        winner: game.winner(),
        trump: game.trump(),
        first_card_in_trick: game.get_first_card_in_trick(),
        stock_size: game.get_stock().len() as u32,
        trump_card_rank: game.get_stock().trump_card_rank(),
        stock_closed: game.get_stock().is_closed(),
        on_lead: game.player_id_on_lead(),
        hand: vstd::slice::slice_to_vec(player.get_hand()),
        wins: vstd::slice::slice_to_vec(player.get_wins()),
        twenties: vstd::slice::slice_to_vec(player.get_twenties()),
        forty: *player.get_forty(),
    }
}

/// The game as the seat `player_id` can rebuild it from its snapshot.
pub fn game_state_to_client_game(player_id: PlayerId, game_state: FullPlayerGameState) -> (r: Game<
    DummyStock,
>)
    ensures
        rebuilt_from(r@, game_state, player_id),
{
    let stock = DummyStock::new(
        game_state.stock_size as usize,
        game_state.trump_card_rank,
        game_state.stock_closed,
    );
    new_client_game(
        player_id,
        game_state.winner,
        game_state.trump,
        game_state.first_card_in_trick,
        stock,
        game_state.on_lead,
        game_state.hand,
        game_state.wins,
        game_state.twenties,
        game_state.forty,
    )
}

} // verus!
