//! A three-dimensional connect-four: the board and its win detection, the
//! manager that coordinates two players and a display, the two kinds of player,
//! and the server's registry that matches remote players.
//!
//! Nothing here communicates. Each component is a state machine: it is handed
//! what has arrived, updates itself, and returns what is to be sent.

pub mod display;
pub mod game;
pub mod game_manager;
pub mod play;
pub mod registry;
pub mod server;

use crate::game::{BoardState, PoleCoords, Side};
use crate::game_manager::GameState;
use vstd::prelude::*;

verus! {

/// Message that a client sends to the server.
#[derive(Debug, Clone)]
pub enum WSClientToServer {
    /// Authentication message, must be the first one that the client sends.
    Hello(WSClientInfo),
    /// Put a token on the given pole.
    PutToken(PoleCoords),
}

/// Message that the server sends to a client.
#[derive(Debug, Clone)]
pub enum WSServerToClient {
    /// Sent every few seconds to keep the connection alive.
    Ping,
    /// Any human-readable message, shown as part of the player state.
    Msg(String),
    /// Full game reset, sent to both players whenever two of them meet at a game.
    GameReset(WSGameReset),
    /// The opponent has put a token on the given pole.
    PutToken(PoleCoords),
    /// The opponent has disconnected from the server. It might still come back
    /// later, and the game can continue then.
    OpponentIsGone,
}

/// What a client tells the server right after connecting.
#[derive(Debug, Clone)]
pub struct WSClientInfo {
    /// The game to play. Two players who name the same game are introduced to
    /// each other; a third one is turned away.
    pub game_id: String,
    /// Player name to show to the opponent.
    pub player_name: String,
    /// Full game state that the client currently has, from which the server
    /// starts a game that it does not know yet.
    pub game_state: WSFullGameState,
}

/// Full game reset, as the server sends it to both clients when they meet.
#[derive(Debug, Clone)]
pub struct WSGameReset {
    /// Opponent name.
    pub opponent_name: String,
    /// Actual state of the game.
    pub game_state: WSFullGameState,
}

/// Full game state as it goes over the connection.
#[derive(Debug, Clone)]
pub struct WSFullGameState {
    pub game_state: GameState,
    /// Side of the player behind the connection, as seen by the one who
    /// receives or sends this state.
    pub ws_player_side: Side,
    /// Full board state.
    pub board: BoardState,
}

} // verus!
