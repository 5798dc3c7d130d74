//! Session state machine for a two-player battleship match in which both
//! boards stay hidden behind commitments and every hit or miss is answered
//! with a proof.
//!
//! [`contract::BattleshipContract`] holds the one active session and the
//! records of all players. Its calls are proved against the rules in
//! [`rules`], [`settlement`] and [`records`]; [`laws`] states what follows
//! from them for every sequence of calls.

pub mod contract;
pub mod laws;
pub mod player;
pub mod player_map;
pub mod records;
pub mod rules;
pub mod session;
pub mod settlement;
pub mod state;
pub mod stats;

pub use contract::{BattleshipContract, HubCall};
pub use player::PlayerId;
pub use state::{GameError, GamePhase, GameState};
pub use stats::{GameResult, PlayerStats};
