//! What the server does for one connected client.
//!
//! A client first says hello and so joins a game of the registry. From then on
//! the server hands the moves of the client to the game and to the opponent,
//! tells the client what the opponent does, and pings the client at a fixed
//! interval. The server sends and receives nothing here: each function returns
//! what is to be sent.

use crate::game::{PoleCoords, Side};
use crate::registry::{
    join_step, put_step, Addressed, Delivery, JoinError, Notice, PlayError, PlayerToPlayer,
    Registry,
};
use crate::{WSClientToServer, WSGameReset, WSServerToClient};
use vstd::prelude::*;
use vstd::string::StringExecFns;

verus! {

/// How often the server pings each client, in milliseconds.
pub const PING_INTERVAL_MS: u64 = 5000;

/// What the server knows of one client that plays in a game.
pub struct PlayerConn {
    game_id: String,
    player_id: String,
    /// The id of the opponent, while there is one.
    opponent: Option<String>,
    /// The side that the registry has told this client. It is the side of
    /// the opponent as the client sees it: the client itself puts tokens of the
    /// opposite side.
    side: Side,
}

/// What happens on the connection of a client that plays in a game.
#[derive(Debug)]
pub enum ConnEvent {
    /// A message from the client has arrived.
    FromClient(WSClientToServer),
    /// A notice about the opponent has arrived.
    FromOpponent(PlayerToPlayer),
    /// It is time for a ping.
    PingDue,
}

/// A message that the server wants sent for a client.
#[derive(Debug)]
pub enum ConnOut {
    /// To the client itself.
    ToClient(WSServerToClient),
    /// To another player of the game.
    ToOpponent(Delivery),
}

/// Why the server ends the connection of a client.
#[derive(Debug, Clone, Copy, PartialEq, Eq, Structural)]
pub enum ConnError {
    /// The client said hello a second time.
    UnexpectedHello,
    /// A token of the client was not put.
    Play(PlayError),
}

/// The text that tells a client that the game `game_id` is full.
pub open spec fn already_full_text(game_id: Seq<char>) -> Seq<char> {
    "game "@ + game_id + " already has both players"@
}

/// `msg` is a human-readable message for the client with the given text.
pub open spec fn is_msg(msg: WSServerToClient, text: Seq<char>) -> bool {
    msg matches WSServerToClient::Msg(t) && t@ == text
}

/// What the registry is to be asked, as a result of putting a token, for the
/// result `r` of handling an event.
pub open spec fn put_result(r: Result<Vec<ConnOut>, ConnError>) -> Result<(), PlayError> {
    match r {
        Ok(_) => Ok(()),
        Err(ConnError::Play(e)) => Err(e),
        Err(ConnError::UnexpectedHello) => Err(PlayError::NotInGame),
    }
}

/// The messages `out` hand the token on the pole `p` to the opponent, if
/// there is one.
pub open spec fn is_forwarded_put(
    out: Seq<ConnOut>,
    opponent: Option<Seq<char>>,
    p: PoleCoords,
) -> bool {
    match opponent {
        Some(o) => {
            &&& out.len() == 1
            &&& out[0] matches ConnOut::ToOpponent(d)
            &&& d@ == Addressed { to: o, msg: Notice::PutToken(p) }
        },
        None => out.len() == 0,
    }
}

/// The messages `out` reset the game of the client to the given state of its
/// game in the registry, with `side` as the side of the player behind the connection.
pub open spec fn is_game_reset(
    out: Seq<ConnOut>,
    session: crate::registry::Session,
    side: Side,
) -> bool {
    &&& out.len() == 1
    &&& out[0] matches ConnOut::ToClient(WSServerToClient::GameReset(reset))
    &&& reset.opponent_name@ == "my opponent"@
    &&& reset.game_state.game_state == session.game_state
    &&& reset.game_state.ws_player_side == side
    &&& reset.game_state.board@ == session.board
}

impl PlayerConn {
    /// The id of the game in which the client plays.
    pub closed spec fn game_id(&self) -> Seq<char> {
        self.game_id@
    }

    /// The id of the client as a player.
    pub closed spec fn player_id(&self) -> Seq<char> {
        self.player_id@
    }

    /// The id of the opponent, while there is one.
    pub closed spec fn opponent(&self) -> Option<Seq<char>> {
        match self.opponent {
            Some(o) => Some(o@),
            None => None,
        }
    }

    /// The side that the registry has told this client last; `White` before that.
    pub closed spec fn side(&self) -> Side {
        self.side
    }

    /// The game and the player are those of `before`.
    pub open spec fn same_ids(&self, before: &PlayerConn) -> bool {
        self.game_id() == before.game_id() && self.player_id() == before.player_id()
    }

    /// The game id of this connection, to leave the game with.
    pub fn get_game_id(&self) -> (r: &String)
        ensures
            r@ == self.game_id(),
    {
        &self.game_id
    }

    /// The player id of this connection, to leave the game with.
    pub fn get_player_id(&self) -> (r: &String)
        ensures
            r@ == self.player_id(),
    {
        &self.player_id
    }
}

/// Takes the first message `first` of the client `player_id`. It must be a
/// hello, with which the client joins a game of the registry or creates it.
///
/// On success the connection is returned with the notices for the players of
/// the game. On failure the message is returned that the client is to be sent
/// before the connection is closed: that a hello was expected, or that the game
/// has both players already.
pub fn handle_conn(registry: &mut Registry, player_id: &str, first: WSClientToServer) -> (r: Result<
    (PlayerConn, Vec<Delivery>),
    WSServerToClient,
>)
    requires
        old(registry).wf(),
    ensures
        final(registry).wf(),
        match first {
            WSClientToServer::PutToken(_) => {
                &&& final(registry)@ == old(registry)@
                &&& r matches Err(msg)
                &&& is_msg(msg, "expected hello"@)
            },
            WSClientToServer::Hello(info) => {
                &&& join_step(
                    old(registry)@,
                    final(registry)@,
                    info.game_id@,
                    player_id@,
                    info.game_state,
                    match r {
                        Ok((_, d)) => Ok(d.deep_view()),
                        Err(_) => Err(JoinError::AlreadyFull),
                    },
                )
                &&& match r {
                    Ok((conn, _)) => {
                        &&& conn.game_id() == info.game_id@
                        &&& conn.player_id() == player_id@
                        &&& conn.opponent() is None
                        &&& conn.side() == Side::White
                    },
                    Err(msg) => is_msg(msg, already_full_text(info.game_id@)),
                }
            },
        },
{
    let player_info = match first {
        WSClientToServer::Hello(msg) => msg,
        WSClientToServer::PutToken(_) => {
            return Err(WSServerToClient::Msg("expected hello".to_owned()));
        },
    };
    match registry.join_or_create_game(
        player_info.game_id.as_str(),
        player_id,
        player_info.game_state,
    ) {
        Ok(deliveries) => {
            let conn = PlayerConn {
                game_id: player_info.game_id,
                player_id: player_id.to_owned(),
                opponent: None,
                side: Side::White,
            };
            Ok((conn, deliveries))
        },
        Err(JoinError::AlreadyFull) => {
            let mut text = "game ".to_owned();
            text.append(player_info.game_id.as_str());
            text.append(" already has both players");
            Err(WSServerToClient::Msg(text))
        },
    }
}

impl PlayerConn {
    /// Handles one event on the connection of a client that plays in a game,
    /// and returns the messages to send, in order. An error ends the connection.
    ///
    /// A token from the client is put on the board of its game, with the side
    /// opposite to the one of this connection, and handed on to the opponent if
    /// there is one. The game is won by that side if the token completes a
    /// line, and waits for the other side otherwise. A token that the game does
    /// not take, and a second hello, end the connection. When the opponent
    /// arrives, the client gets the full state of the game; when the opponent
    /// leaves or puts a token, the client is told. A ping is sent whenever one
    /// is due.
    pub fn handle_player(&mut self, registry: &mut Registry, event: ConnEvent) -> (r: Result<
        Vec<ConnOut>,
        ConnError,
    >)
        requires
            old(registry).wf(),
            event matches ConnEvent::FromClient(WSClientToServer::PutToken(p)) ==> p.in_bounds(),
        ensures
            final(registry).wf(),
            final(self).same_ids(old(self)),
            match event {
                ConnEvent::FromClient(WSClientToServer::Hello(_)) => {
                    &&& r == Err::<Vec<ConnOut>, ConnError>(ConnError::UnexpectedHello)
                    &&& final(registry)@ == old(registry)@
                    &&& final(self).opponent() == old(self).opponent()
                    &&& final(self).side() == old(self).side()
                },
                ConnEvent::FromClient(WSClientToServer::PutToken(p)) => {
                    &&& r != Err::<Vec<ConnOut>, ConnError>(ConnError::UnexpectedHello)
                    &&& put_step(
                        old(registry)@,
                        final(registry)@,
                        old(self).game_id(),
                        old(self).player_id(),
                        old(self).side().spec_opposite(),
                        p,
                        put_result(r),
                    )
                    &&& r matches Ok(out) ==> is_forwarded_put(out@, old(self).opponent(), p)
                    &&& final(self).opponent() == old(self).opponent()
                    &&& final(self).side() == old(self).side()
                },
                ConnEvent::FromOpponent(PlayerToPlayer::OpponentIsHere(v)) => {
                    &&& final(registry)@ == old(registry)@
                    &&& final(self).opponent() == Some(v.to_opponent@)
                    &&& final(self).side() == v.my_side
                    &&& if old(registry).has_player(old(self).game_id(), old(self).player_id()) {
                        r matches Ok(out) && is_game_reset(
                            out@,
                            old(registry)@[old(self).game_id()],
                            v.my_side,
                        )
                    } else {
                        r == Err::<Vec<ConnOut>, ConnError>(ConnError::Play(PlayError::NotInGame))
                    }
                },
                ConnEvent::FromOpponent(PlayerToPlayer::OpponentIsGone) => {
                    &&& final(registry)@ == old(registry)@
                    &&& final(self).opponent() is None
                    &&& final(self).side() == old(self).side()
                    &&& r matches Ok(out)
                    &&& out@ == seq![ConnOut::ToClient(WSServerToClient::OpponentIsGone)]
                },
                ConnEvent::FromOpponent(PlayerToPlayer::PutToken(p)) => {
                    &&& final(registry)@ == old(registry)@
                    &&& final(self).opponent() == old(self).opponent()
                    &&& final(self).side() == old(self).side()
                    &&& r matches Ok(out)
                    &&& out@ == seq![ConnOut::ToClient(WSServerToClient::PutToken(p))]
                },
                ConnEvent::PingDue => {
                    &&& final(registry)@ == old(registry)@
                    &&& final(self).opponent() == old(self).opponent()
                    &&& final(self).side() == old(self).side()
                    &&& r matches Ok(out)
                    &&& out@ == seq![ConnOut::ToClient(WSServerToClient::Ping)]
                },
            },
    {
        let mut out: Vec<ConnOut> = Vec::new();
        match event {
            // A message from the remote client on whose behalf we work here.
            ConnEvent::FromClient(msg) => {
                match msg {
                    WSClientToServer::Hello(_) => {
                        return Err(ConnError::UnexpectedHello);
                    },
                    WSClientToServer::PutToken(pcoords) => {
                        match registry.put_token(
                            self.game_id.as_str(),
                            self.player_id.as_str(),
                            self.side.opposite(),
                            pcoords,
                        ) {
                            Ok(()) => {},
                            Err(e) => {
                                return Err(ConnError::Play(e));
                            },
                        }
                        if let Some(to_opponent) = &self.opponent {
                            out.push(
                                ConnOut::ToOpponent(
                                    Delivery {
                                        to: to_opponent.clone(),
                                        msg: PlayerToPlayer::PutToken(pcoords),
                                    },
                                ),
                            );
                        }
                    },
                }
            },
            // A notice about the opponent, another player connected to the
            // same server.
            ConnEvent::FromOpponent(val) => {
                match val {
                    PlayerToPlayer::OpponentIsHere(v) => {
                        self.opponent = Some(v.to_opponent);
                        self.side = v.my_side;
                        let state = match registry.full_state(
                            self.game_id.as_str(),
                            self.player_id.as_str(),
                            self.side,
                        ) {
                            Some(state) => state,
                            None => {
                                return Err(ConnError::Play(PlayError::NotInGame));
                            },
                        };
                        out.push(
                            ConnOut::ToClient(
                                WSServerToClient::GameReset(
                                    WSGameReset {
                                        opponent_name: "my opponent".to_owned(),
                                        game_state: state,
                                    },
                                ),
                            ),
                        );
                    },
                    PlayerToPlayer::OpponentIsGone => {
                        self.opponent = None;
                        out.push(ConnOut::ToClient(WSServerToClient::OpponentIsGone));
                    },
                    PlayerToPlayer::PutToken(pcoords) => {
                        out.push(ConnOut::ToClient(WSServerToClient::PutToken(pcoords)));
                    },
                }
            },
            ConnEvent::PingDue => {
                out.push(ConnOut::ToClient(WSServerToClient::Ping));
            },
        }
        Ok(out)
    }
}

} // verus!
