//! The player who sits at this machine and picks poles through the display.

use crate::game::{empty_board, BoardState, PoleCoords, Side};
use crate::game_manager::{
    FullGameState, GameManagerToPlayer, GameState, PlayerState, PlayerToGameManager,
};
use vstd::prelude::*;

verus! {

/// Local player, which asks the display for its moves.
pub struct PlayerLocal {
    /// Current player side, if any.
    side: Option<Side>,
}

/// Message that a local player sends to the display.
#[derive(Debug, Clone, Copy, PartialEq, Eq, Structural)]
pub enum PlayerLocalToUI {
    /// The player of the given side waits for the user to pick a pole. The
    /// answer is due once.
    RequestInput(Side),
}

/// What happens to a local player.
#[derive(Debug)]
pub enum PlayerLocalEvent {
    /// The player starts.
    Started,
    /// A message from the manager has arrived.
    FromManager(GameManagerToPlayer),
    /// The user has picked the given pole.
    PoleChosen(PoleCoords),
}

/// A message that a local player wants sent, with its receiver.
#[derive(Debug)]
pub enum PlayerLocalOut {
    ToManager(PlayerToGameManager),
    ToUI(PlayerLocalToUI),
}

/// The request for input that a player of the side `side` makes when the game
/// state becomes `state`: one where it is its turn, none otherwise.
pub open spec fn input_request(side: Option<Side>, state: GameState) -> Option<PlayerLocalToUI> {
    match state {
        GameState::WaitingFor(next) => if side == Some(next) {
            Some(PlayerLocalToUI::RequestInput(next))
        } else {
            None
        },
        GameState::WonBy(_) => None,
    }
}

/// The messages `out` are those with which a local player of the side `side`
/// starts. One that has a side is the primary player and sets up an empty
/// board on which it moves first. Every local player is ready at once.
pub open spec fn is_local_start(side: Option<Side>, out: Seq<PlayerLocalOut>) -> bool {
    match side {
        Some(s) => {
            &&& out.len() == 2
            &&& out[0] matches PlayerLocalOut::ToManager(PlayerToGameManager::SetFullGameState(f))
            &&& f.game_state == GameState::WaitingFor(s)
            &&& f.primary_player_side == s
            &&& f.board@ == empty_board()
            &&& out[1] == PlayerLocalOut::ToManager(
                PlayerToGameManager::StateChanged(PlayerState::Ready),
            )
        },
        None => out == seq![
            PlayerLocalOut::ToManager(PlayerToGameManager::StateChanged(PlayerState::Ready)),
        ],
    }
}

/// The messages that answer a request, if there is one.
pub open spec fn to_ui(request: Option<PlayerLocalToUI>) -> Seq<PlayerLocalOut> {
    match request {
        Some(m) => seq![PlayerLocalOut::ToUI(m)],
        None => Seq::empty(),
    }
}

impl PlayerLocal {
    /// Current side of the player, if any.
    pub closed spec fn side(&self) -> Option<Side> {
        self.side
    }

    /// Create a new local player. One that is given a side is the primary
    /// player; the other one learns its side from the manager.
    pub fn new(side: Option<Side>) -> (r: PlayerLocal)
        ensures
            r.side() == side,
    {
        PlayerLocal { side }
    }

    /// Handles one event and returns the messages to send, in order.
    ///
    /// At the start the player sets up the game, if it is the primary one, and
    /// reports that it is ready. A reset from the manager gives the player its
    /// side. When the game state says that it is this player's turn, the player
    /// asks the display for a pole; the pole that comes back goes to the
    /// manager. Everything else is ignored.
    pub fn run(&mut self, event: PlayerLocalEvent) -> (r: Vec<PlayerLocalOut>)
        ensures
            match event {
                PlayerLocalEvent::Started => {
                    &&& final(self).side() == old(self).side()
                    &&& is_local_start(old(self).side(), r@)
                },
                PlayerLocalEvent::FromManager(GameManagerToPlayer::Reset(_, new_side)) => {
                    &&& final(self).side() == Some(new_side)
                    &&& r@ == Seq::<PlayerLocalOut>::empty()
                },
                PlayerLocalEvent::FromManager(GameManagerToPlayer::OpponentPutToken(_)) => {
                    &&& final(self).side() == old(self).side()
                    &&& r@ == Seq::<PlayerLocalOut>::empty()
                },
                PlayerLocalEvent::FromManager(GameManagerToPlayer::GameStateChanged(state)) => {
                    &&& final(self).side() == old(self).side()
                    &&& r@ == to_ui(input_request(old(self).side(), state))
                },
                PlayerLocalEvent::PoleChosen(pcoords) => {
                    &&& final(self).side() == old(self).side()
                    &&& r@ == seq![
                        PlayerLocalOut::ToManager(PlayerToGameManager::PutToken(pcoords)),
                    ]
                },
            },
    {
        let mut out: Vec<PlayerLocalOut> = Vec::new();
        match event {
            PlayerLocalEvent::Started => {
                // A player that was made with a side is the primary one: it sets
                // the initial game state, saying that it is its turn, with an
                // empty board.
                if let Some(side) = self.side {
                    out.push(
                        PlayerLocalOut::ToManager(
                            PlayerToGameManager::SetFullGameState(
                                FullGameState {
                                    game_state: GameState::WaitingFor(side),
                                    primary_player_side: side,
                                    board: BoardState::new(),
                                },
                            ),
                        ),
                    );
                }
                let ready = PlayerToGameManager::StateChanged(PlayerState::Ready);
                out.push(PlayerLocalOut::ToManager(ready));
            },
            PlayerLocalEvent::FromManager(val) => {
                match val {
                    GameManagerToPlayer::Reset(_board, new_side) => {
                        self.side = Some(new_side);
                    },
                    GameManagerToPlayer::OpponentPutToken(_) => {},
                    GameManagerToPlayer::GameStateChanged(state) => {
                        if let Some(request) = self.handle_game_state(state) {
                            out.push(PlayerLocalOut::ToUI(request));
                        }
                    },
                }
            },
            PlayerLocalEvent::PoleChosen(pcoords) => {
                out.push(PlayerLocalOut::ToManager(PlayerToGameManager::PutToken(pcoords)));
            },
        }
        out
    }

    /// Called whenever the game state changes. When it is this player's turn,
    /// the display is asked for input.
    fn handle_game_state(&self, state: GameState) -> (r: Option<PlayerLocalToUI>)
        ensures
            r == input_request(self.side(), state),
    {
        match state {
            GameState::WaitingFor(next_move_side) => {
                let my_side = match self.side {
                    Some(side) => side,
                    None => {
                        return None;
                    },
                };
                if my_side != next_move_side {
                    return None;
                }
                // It is our turn, so request input from the display.
                Some(PlayerLocalToUI::RequestInput(my_side))
            },
            // Nothing to do on any other game state.
            GameState::WonBy(_) => None,
        }
    }
}

} // verus!
