//! Rules engine for Schnapsen, a two-player trick-taking card game played
//! with a twenty-card deck.

pub mod cards;
pub mod rules;
pub mod stock;
pub mod player;
pub mod message;
pub mod state;
pub mod game;
pub mod game_adapter;
pub mod laws;
pub mod message_handler;
pub mod game_data;
pub mod player_game;

pub use cards::{Card, Rank, Suit};
pub use game::Game;
pub use game_adapter::GameAdapter;
pub use game_data::PublicGameData;
pub use player::{AnyPlayer, DummyPlayer, IPlayer, Player, PlayerData, PlayerId};
pub use player_game::PlayerGame;
pub use rules::ErrorKind;
pub use stock::{DummyStock, IStock, Stock, StockData};
