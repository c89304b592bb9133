//! The player on the other side of a server connection.
//!
//! This player stands for the remote opponent. It hands on what the server
//! says to the manager, and what the local opponent does to the server. While
//! the connection is down it reports itself not ready and asks to be
//! reconnected, for ever.
//!
//! The player keeps the game as far as it knows it: what the server said when
//! the players last met, with every token since. Whenever it connects, it
//! offers the server that game, so that a server which has lost the game takes
//! it up where it was.

use crate::game::{empty_board, lemma_scan, BoardState, Game, PoleCoords, Side};
use crate::game_manager::{
    FullGameState, GameManagerToPlayer, GameState, PlayerState, PlayerToGameManager,
};
use crate::play::Play;
use crate::{WSClientInfo, WSClientToServer, WSFullGameState, WSServerToClient};
use vstd::prelude::*;
use vstd::string::StringExecFns;

verus! {

/// How long to wait before connecting again after a connection has failed, in
/// milliseconds.
pub const RECONNECT_DELAY_MS: u64 = 1000;

/// Network player, which gets its moves from the remote player via the server.
pub struct PlayerWSClient {
    game_id: String,
    /// Current player side, if any.
    side: Option<Side>,
    /// Last message that the server sent. It is put in front of every
    /// "not ready" state that this player reports, until the player is ready.
    server_msg: Option<String>,
    /// The game as far as this player knows it; nothing before the server has
    /// reset the game for the first time.
    known: Option<KnownGame>,
}

/// The game as a network player knows it.
struct KnownGame {
    game: Game,
    game_state: GameState,
    /// The side of the player behind the connection, the remote one.
    ws_player_side: Side,
}

/// The state of a game as contracts see it: the game state, the side of the
/// player behind the connection, and the cells of the board.
pub struct Snapshot {
    pub game_state: GameState,
    pub ws_player_side: Side,
    pub board: Seq<Option<Side>>,
}

/// What happens to a network player.
#[derive(Debug)]
pub enum WSConnEvent {
    /// A connection attempt begins.
    Connecting,
    /// The connection is made.
    Connected,
    /// The hello message has been sent.
    HelloSent,
    /// A message from the server has arrived.
    FromServer(WSServerToClient),
    /// A message from the manager has arrived.
    FromManager(GameManagerToPlayer),
    /// The connection has failed, for the given reason.
    Failed(String),
}

/// What a network player wants done.
#[derive(Debug)]
pub enum WSClientOut {
    /// Send the message to the manager.
    ToManager(PlayerToGameManager),
    /// Send the message to the server.
    ToServer(WSClientToServer),
    /// Wait for the given number of milliseconds, then connect again.
    Reconnect(u64),
}

/// The text of a "not ready" state: the state itself, after the last message
/// of the server and a colon if there is such a message.
pub open spec fn not_ready_text(server_msg: Option<Seq<char>>, state: Seq<char>) -> Seq<char> {
    match server_msg {
        Some(m) => m + ": "@ + state,
        None => state,
    }
}

/// `out` reports to the manager that the player is not ready, with the given text.
pub open spec fn is_not_ready(out: WSClientOut, text: Seq<char>) -> bool {
    out matches WSClientOut::ToManager(PlayerToGameManager::StateChanged(PlayerState::NotReady(t)))
        && t@ == text
}

/// `out` reports to the manager that the player is ready.
pub open spec fn is_ready(out: WSClientOut) -> bool {
    out == WSClientOut::ToManager(PlayerToGameManager::StateChanged(PlayerState::Ready))
}

/// The state that a player offers who knows of no game: an empty board on
/// which White, the player behind the connection, moves first.
pub open spec fn fresh_snapshot() -> Snapshot {
    Snapshot {
        game_state: GameState::WaitingFor(Side::White),
        ws_player_side: Side::White,
        board: empty_board(),
    }
}

/// The best state that a player knows who knows `known`: that one, or the
/// fresh one where nothing is known.
pub open spec fn best_known(known: Option<Snapshot>) -> Snapshot {
    match known {
        Some(k) => k,
        None => fresh_snapshot(),
    }
}

/// The state of a full game state as it goes over the connection.
pub open spec fn snapshot_of(state: WSFullGameState) -> Snapshot {
    Snapshot {
        game_state: state.game_state,
        ws_player_side: state.ws_player_side,
        board: state.board@,
    }
}

/// What a token of `side` on the pole `p` makes of the known game: the game
/// takes it as any game takes a token, where the pole stands on the board and
/// it is the turn of `side`. A token that the game does not take, and any token
/// while no game is known, changes nothing.
pub open spec fn with_put(known: Option<Snapshot>, side: Side, p: PoleCoords) -> Option<Snapshot> {
    match known {
        Some(k) => if p.in_bounds() {
            let next = (Play { board: k.board, state: k.game_state }).put(side, p);
            Some(Snapshot { game_state: next.state, board: next.board, ..k })
        } else {
            Some(k)
        },
        None => None,
    }
}

/// `out` is the hello message for the game `game_id` that offers the state `offer`.
pub open spec fn is_hello(out: WSClientOut, game_id: Seq<char>, offer: Snapshot) -> bool {
    &&& out matches WSClientOut::ToServer(WSClientToServer::Hello(info))
    &&& info.game_id@ == game_id
    &&& info.player_name@ == "me"@
    &&& snapshot_of(info.game_state) == offer
}

impl PlayerWSClient {
    /// The game that this player asks the server for.
    pub closed spec fn game_id(&self) -> Seq<char> {
        self.game_id@
    }

    /// Current side of the player, if any.
    pub closed spec fn side(&self) -> Option<Side> {
        self.side
    }

    /// Last message of the server since the player was last ready, if any.
    pub closed spec fn server_msg(&self) -> Option<Seq<char>> {
        match self.server_msg {
            Some(m) => Some(m@),
            None => None,
        }
    }

    /// The game as far as the player knows it; nothing before the server has
    /// reset the game for the first time.
    pub closed spec fn known(&self) -> Option<Snapshot> {
        match self.known {
            Some(k) => Some(
                Snapshot {
                    game_state: k.game_state,
                    ws_player_side: k.ws_player_side,
                    board: k.game@,
                },
            ),
            None => None,
        }
    }

    /// The game that the player keeps is well-formed.
    pub closed spec fn wf(&self) -> bool {
        self.known matches Some(k) ==> k.game.wf()
    }

    /// What a message `msg` from the server does to the player `self`, giving
    /// `after` and `out`. A reset of the game is what the player knows of the
    /// game from then on; a token of the remote player, whose side is that
    /// of the player behind the connection, is put on the known board.
    pub open spec fn server_msg_step(
        &self,
        after: &PlayerWSClient,
        msg: WSServerToClient,
        out: Seq<WSClientOut>,
    ) -> bool {
        &&& after.game_id() == self.game_id()
        &&& after.side() == self.side()
        &&& match msg {
            WSServerToClient::Ping => {
                &&& after.server_msg() == self.server_msg()
                &&& after.known() == self.known()
                &&& out.len() == 0
            },
            WSServerToClient::Msg(s) => {
                &&& after.server_msg() == Some(s@)
                &&& after.known() == self.known()
                &&& out.len() == 1
                &&& is_not_ready(out[0], not_ready_text(self.server_msg(), s@))
            },
            WSServerToClient::GameReset(v) => {
                &&& after.server_msg() is None
                &&& after.known() == Some(snapshot_of(v.game_state))
                &&& out.len() == 2
                &&& is_ready(out[0])
                &&& out[1] == WSClientOut::ToManager(
                    PlayerToGameManager::SetFullGameState(
                        FullGameState {
                            game_state: v.game_state.game_state,
                            primary_player_side: v.game_state.ws_player_side,
                            board: v.game_state.board,
                        },
                    ),
                )
            },
            WSServerToClient::PutToken(pcoords) => {
                &&& after.server_msg() == self.server_msg()
                &&& after.known() == with_put(
                    self.known(),
                    best_known(self.known()).ws_player_side,
                    pcoords,
                )
                &&& out == seq![WSClientOut::ToManager(PlayerToGameManager::PutToken(pcoords))]
            },
            WSServerToClient::OpponentIsGone => {
                &&& after.server_msg() == self.server_msg()
                &&& after.known() == self.known()
                &&& out.len() == 1
                &&& is_not_ready(
                    out[0],
                    not_ready_text(self.server_msg(), "opponent disconnected, waiting..."@),
                )
            },
        }
    }

    /// What a message `msg` from the manager does to the player `self`, giving
    /// `after` and `out`. Only the move of the local opponent goes to the
    /// server; its token, of the side opposite to that of the player behind the
    /// connection, is put on the known board.
    pub open spec fn manager_msg_step(
        &self,
        after: &PlayerWSClient,
        msg: GameManagerToPlayer,
        out: Seq<WSClientOut>,
    ) -> bool {
        &&& after.game_id() == self.game_id()
        &&& after.server_msg() == self.server_msg()
        &&& match msg {
            GameManagerToPlayer::Reset(_, new_side) => {
                &&& after.side() == Some(new_side)
                &&& after.known() == self.known()
                &&& out.len() == 0
            },
            GameManagerToPlayer::OpponentPutToken(pcoords) => {
                &&& after.side() == self.side()
                &&& after.known() == with_put(
                    self.known(),
                    best_known(self.known()).ws_player_side.spec_opposite(),
                    pcoords,
                )
                &&& out == seq![WSClientOut::ToServer(WSClientToServer::PutToken(pcoords))]
            },
            GameManagerToPlayer::GameStateChanged(_) => {
                &&& after.side() == self.side()
                &&& after.known() == self.known()
                &&& out.len() == 0
            },
        }
    }

    /// Create a new network player for the game `game_id`. The game id is how
    /// the server matches the players against each other.
    pub fn new(game_id: String) -> (r: PlayerWSClient)
        ensures
            r.wf(),
            r.game_id() == game_id@,
            r.side() is None,
            r.server_msg() is None,
            r.known() is None,
    {
        PlayerWSClient { game_id, side: None, server_msg: None, known: None }
    }

    /// Handles one event of the connection to the server and returns what is
    /// to be done, in order.
    ///
    /// On the way to a connection the player reports each stage to the manager
    /// as a "not ready" state, and greets the server once connected, offering
    /// the best state of the game that it knows. From then on it translates
    /// between the server and the manager. When the connection fails, it
    /// reports the reason and asks to be connected again after
    /// `RECONNECT_DELAY_MS`.
    pub fn handle_ws_conn(&mut self, event: WSConnEvent) -> (r: Vec<WSClientOut>)
        requires
            old(self).wf(),
        ensures
            final(self).wf(),
            match event {
                WSConnEvent::Connecting => {
                    &&& *final(self) == *old(self)
                    &&& r@.len() == 1
                    &&& is_not_ready(
                        r@[0],
                        not_ready_text(old(self).server_msg(), "connecting to server..."@),
                    )
                },
                WSConnEvent::Connected => {
                    &&& *final(self) == *old(self)
                    &&& r@.len() == 2
                    &&& is_not_ready(
                        r@[0],
                        not_ready_text(old(self).server_msg(), "authenticating..."@),
                    )
                    &&& is_hello(r@[1], old(self).game_id(), best_known(old(self).known()))
                },
                WSConnEvent::HelloSent => {
                    &&& *final(self) == *old(self)
                    &&& r@.len() == 1
                    &&& is_not_ready(
                        r@[0],
                        not_ready_text(
                            old(self).server_msg(),
                            "connected, waiting for the opponent..."@,
                        ),
                    )
                },
                WSConnEvent::FromServer(msg) => old(self).server_msg_step(final(self), msg, r@),
                WSConnEvent::FromManager(msg) => old(self).manager_msg_step(final(self), msg, r@),
                WSConnEvent::Failed(reason) => {
                    &&& *final(self) == *old(self)
                    &&& r@.len() == 2
                    &&& is_not_ready(r@[0], not_ready_text(old(self).server_msg(), reason@))
                    &&& r@[1] == WSClientOut::Reconnect(RECONNECT_DELAY_MS)
                },
            },
    {
        let mut out: Vec<WSClientOut> = Vec::new();
        match event {
            WSConnEvent::Connecting => {
                out.push(self.upd_state_not_ready("connecting to server..."));
            },
            WSConnEvent::Connected => {
                out.push(self.upd_state_not_ready("authenticating..."));

                // Now that we are connected, authenticate with the server, and
                // offer it the game as far as we know it.
                let hello = WSClientToServer::Hello(
                    WSClientInfo {
                        game_id: self.game_id.clone(),
                        player_name: "me".to_owned(),
                        game_state: self.known_state(),
                    },
                );
                out.push(WSClientOut::ToServer(hello));
            },
            WSConnEvent::HelloSent => {
                out.push(self.upd_state_not_ready("connected, waiting for the opponent..."));
            },
            WSConnEvent::FromServer(msg) => {
                match msg {
                    WSServerToClient::Ping => {},
                    WSServerToClient::Msg(s) => {
                        out.push(self.upd_state_not_ready(s.as_str()));
                        self.server_msg = Some(s);
                    },
                    WSServerToClient::GameReset(v) => {
                        // The server reset the game: we are meeting the other
                        // player. The manager learns that we are ready to play,
                        // and gets the full game state.
                        out.push(self.upd_state_ready());
                        let mut game = Game::new();
                        game.reset_board(&v.game_state.board);
                        self.known = Some(
                            KnownGame {
                                game,
                                game_state: v.game_state.game_state,
                                ws_player_side: v.game_state.ws_player_side,
                            },
                        );
                        out.push(
                            WSClientOut::ToManager(
                                PlayerToGameManager::SetFullGameState(
                                    FullGameState {
                                        game_state: v.game_state.game_state,
                                        primary_player_side: v.game_state.ws_player_side,
                                        board: v.game_state.board,
                                    },
                                ),
                            ),
                        );
                    },
                    WSServerToClient::PutToken(pcoords) => {
                        // The remote player put a token: tell the manager on
                        // their behalf.
                        self.remember_token(false, pcoords);
                        out.push(WSClientOut::ToManager(PlayerToGameManager::PutToken(pcoords)));
                    },
                    WSServerToClient::OpponentIsGone => {
                        out.push(self.upd_state_not_ready("opponent disconnected, waiting..."));
                    },
                }
            },
            WSConnEvent::FromManager(val) => {
                match val {
                    GameManagerToPlayer::Reset(_board, new_side) => {
                        // The manager lets us know our side.
                        self.side = Some(new_side);
                    },
                    GameManagerToPlayer::OpponentPutToken(pcoords) => {
                        // Our local opponent put a token: tell the server.
                        self.remember_token(true, pcoords);
                        out.push(WSClientOut::ToServer(WSClientToServer::PutToken(pcoords)));
                    },
                    GameManagerToPlayer::GameStateChanged(_) => {},
                }
            },
            WSConnEvent::Failed(reason) => {
                out.push(self.upd_state_not_ready(reason.as_str()));
                out.push(WSClientOut::Reconnect(RECONNECT_DELAY_MS));
            },
        }
        out
    }

    /// The best state of the game that the player knows, to offer to the server.
    fn known_state(&self) -> (r: WSFullGameState)
        requires
            self.wf(),
        ensures
            snapshot_of(r) == best_known(self.known()),
    {
        match &self.known {
            Some(k) => WSFullGameState {
                game_state: k.game_state,
                ws_player_side: k.ws_player_side,
                board: k.game.get_board().clone(),
            },
            None => WSFullGameState {
                game_state: GameState::WaitingFor(Side::White),
                ws_player_side: Side::White,
                board: BoardState::new(),
            },
        }
    }

    /// Puts a token on the known board, if a game is known: of the local
    /// player if `local`, of the remote one otherwise.
    fn remember_token(&mut self, local: bool, pcoords: PoleCoords)
        requires
            old(self).wf(),
        ensures
            final(self).wf(),
            final(self).game_id() == old(self).game_id(),
            final(self).side() == old(self).side(),
            final(self).server_msg() == old(self).server_msg(),
            final(self).known() == with_put(
                old(self).known(),
                if local {
                    best_known(old(self).known()).ws_player_side.spec_opposite()
                } else {
                    best_known(old(self).known()).ws_player_side
                },
                pcoords,
            ),
    {
        if !pcoords.on_board() {
            return;
        }
        if let Some(k) = &mut self.known {
            let side = if local {
                k.ws_player_side.opposite()
            } else {
                k.ws_player_side
            };
            proof {
                lemma_scan(k.game@, k.game.win_row());
            }
            let my_turn = match k.game_state {
                GameState::WaitingFor(s) => s == side,
                GameState::WonBy(_) => false,
            };
            if my_turn {
                match k.game.put_token(side, pcoords) {
                    Ok(res) => {
                        proof {
                            lemma_scan(k.game@, k.game.win_row());
                        }
                        k.game_state = if res.won {
                            GameState::WonBy(side)
                        } else {
                            GameState::WaitingFor(side.opposite())
                        };
                    },
                    Err(_) => {},
                }
            }
        }
    }

    /// The "not ready" state for the manager. The given text comes after the
    /// last message of the server, if there is one, and a colon.
    fn upd_state_not_ready(&self, state: &str) -> (r: WSClientOut)
        ensures
            is_not_ready(r, not_ready_text(self.server_msg(), state@)),
    {
        let text = match &self.server_msg {
            Some(server_msg) => {
                let mut tmp = server_msg.clone();
                tmp.append(": ");
                tmp.append(state);
                tmp
            },
            None => state.to_owned(),
        };
        WSClientOut::ToManager(PlayerToGameManager::StateChanged(PlayerState::NotReady(text)))
    }

    /// The "ready" state for the manager. The last message of the server is
    /// forgotten.
    pub fn upd_state_ready(&mut self) -> (r: WSClientOut)
        ensures
            final(self).game_id() == old(self).game_id(),
            final(self).side() == old(self).side(),
            final(self).known() == old(self).known(),
            old(self).wf() ==> final(self).wf(),
            final(self).server_msg() is None,
            is_ready(r),
    {
        self.server_msg = None;
        WSClientOut::ToManager(PlayerToGameManager::StateChanged(PlayerState::Ready))
    }
}

} // verus!
