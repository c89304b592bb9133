//! The server's registry of games, which matches players by game id.
//!
//! A game is kept as long as at least one player is connected to it. When one
//! of two players leaves, the game stays, and resumes where it was when a player
//! joins it again. When the last player leaves, the game is destroyed. A game
//! that has been won is replaced by a new one as soon as a player joins it.
//!
//! The registry sends nothing itself. Its operations return the notices for
//! the players, each with the id of its receiver.

use crate::game::{
    landing_height, lemma_scan, no_win, pole_full, winner_of, with_token, Game, PoleCoords,
    PutError, Side,
};
use crate::game_manager::{state_after_put, GameState};
use crate::WSFullGameState;
use vstd::prelude::*;

verus! {

/// Game registry, to match players by game ids. No two games have the same id.
pub struct Registry {
    games: Vec<GameCtx>,
}

/// A game of the registry.
pub struct GameCtx {
    /// The game id.
    pub id: String,
    pub data: GameData,
}

/// The players and the state of a game of the registry.
pub struct GameData {
    /// Both players, primary and secondary. The primary one is always set. If
    /// there were two players and the primary one left, the secondary one
    /// becomes primary.
    player_pri: Option<Player>,
    player_sec: Option<Player>,
    /// Game state, which is given to both players whenever there are two of them.
    pub game_state: GameState,
    /// The side that goes with the primary player.
    pub player_pri_side: Side,
    pub game: Game,
}

/// A player of a game of the registry.
struct Player {
    id: String,
}

/// Message that a player of a game gets about the other one.
#[derive(Debug)]
pub enum PlayerToPlayer {
    /// For both players whenever the second player arrives.
    OpponentIsHere(GameStartOrResume),
    /// For a player whenever the opponent leaves.
    OpponentIsGone,
    /// The opponent has put a token on the given pole.
    PutToken(PoleCoords),
}

/// For both players whenever the second player arrives.
#[derive(Debug)]
pub struct GameStartOrResume {
    /// The id of the opponent, to whom messages can be sent from now on.
    pub to_opponent: String,
    /// Side that goes with the receiving player.
    pub my_side: Side,
}

/// A message for the player with the given id.
#[derive(Debug)]
pub struct Delivery {
    pub to: String,
    pub msg: PlayerToPlayer,
}

/// Why a player could not join a game.
#[derive(Debug, Clone, Copy, PartialEq, Eq, Structural)]
pub enum JoinError {
    /// The game has both players already.
    AlreadyFull,
}

/// Why a token of a player was not put on the board of a game.
#[derive(Debug, Clone, Copy, PartialEq, Eq, Structural)]
pub enum PlayError {
    /// The registry has no game of that id with that player.
    NotInGame,
    /// The game did not take the token.
    Refused(PutError),
}

/// A game of the registry as contracts see it.
pub struct Session {
    /// The id of the primary player.
    pub primary: Seq<char>,
    /// The id of the secondary player, while there is one.
    pub secondary: Option<Seq<char>>,
    pub game_state: GameState,
    /// The side that goes with the primary player.
    pub primary_side: Side,
    /// The cells of the board.
    pub board: Seq<Option<Side>>,
}

/// A message between players as contracts see it.
pub enum Notice {
    OpponentIsHere { to_opponent: Seq<char>, my_side: Side },
    OpponentIsGone,
    PutToken(PoleCoords),
}

/// A delivery as contracts see it.
pub struct Addressed {
    pub to: Seq<char>,
    pub msg: Notice,
}

impl View for PlayerToPlayer {
    type V = Notice;

    open spec fn view(&self) -> Notice {
        match *self {
            PlayerToPlayer::OpponentIsHere(v) => Notice::OpponentIsHere {
                to_opponent: v.to_opponent@,
                my_side: v.my_side,
            },
            PlayerToPlayer::OpponentIsGone => Notice::OpponentIsGone,
            PlayerToPlayer::PutToken(p) => Notice::PutToken(p),
        }
    }
}

impl View for Delivery {
    type V = Addressed;

    open spec fn view(&self) -> Addressed {
        Addressed { to: self.to@, msg: self.msg@ }
    }
}

impl DeepView for Delivery {
    type V = Addressed;

    open spec fn deep_view(&self) -> Addressed {
        self@
    }
}

impl View for GameData {
    type V = Session;

    closed spec fn view(&self) -> Session {
        Session {
            primary: self.player_pri->0.id@,
            secondary: match self.player_sec {
                Some(p) => Some(p.id@),
                None => None,
            },
            game_state: self.game_state,
            primary_side: self.player_pri_side,
            board: self.game@,
        }
    }
}

impl Session {
    /// The player with the given id plays in this game.
    pub open spec fn has_player(self, player_id: Seq<char>) -> bool {
        self.primary == player_id || self.secondary == Some(player_id)
    }

    /// The side that goes with the player with the given id: that of the
    /// primary player, or else the opposite one.
    pub open spec fn side_of(self, player_id: Seq<char>) -> Side {
        if self.primary == player_id {
            self.primary_side
        } else {
            self.primary_side.spec_opposite()
        }
    }

    /// The game that a first player with the given id and game state starts.
    pub open spec fn fresh(player_id: Seq<char>, state: WSFullGameState) -> Session {
        Session {
            primary: player_id,
            secondary: None,
            game_state: state.game_state,
            primary_side: state.ws_player_side,
            board: state.board@,
        }
    }

    /// The notices that introduce the player who joins this game and its
    /// primary player to each other. Each is told the id of the other one and
    /// the side that goes with itself; the secondary player has the opposite side.
    pub open spec fn introductions(self, player_id: Seq<char>) -> Seq<Addressed> {
        seq![
            Addressed {
                to: self.primary,
                msg: Notice::OpponentIsHere { to_opponent: player_id, my_side: self.primary_side },
            },
            Addressed {
                to: player_id,
                msg: Notice::OpponentIsHere {
                    to_opponent: self.primary,
                    my_side: self.primary_side.spec_opposite(),
                },
            },
        ]
    }
}

/// What it does to the games `before` that the player `player_id` joins the
/// game `game_id`, offering the game state `state`: the games `after` and the
/// result `r`.
///
/// A game that is not there, or that has a winner, is made anew with this
/// player as the primary one and the offered game state. A game with two
/// players is full. A game with one player takes this player as the secondary
/// one, and both are introduced to each other.
pub open spec fn join_step(
    before: Map<Seq<char>, Session>,
    after: Map<Seq<char>, Session>,
    game_id: Seq<char>,
    player_id: Seq<char>,
    state: WSFullGameState,
    r: Result<Seq<Addressed>, JoinError>,
) -> bool {
    if !before.dom().contains(game_id) || !no_win(before[game_id].board) {
        &&& after == before.insert(game_id, Session::fresh(player_id, state))
        &&& r == Ok::<Seq<Addressed>, JoinError>(Seq::empty())
    } else if before[game_id].secondary is Some {
        &&& after == before
        &&& r == Err::<Seq<Addressed>, JoinError>(JoinError::AlreadyFull)
    } else {
        &&& after == before.insert(
            game_id,
            Session { secondary: Some(player_id), ..before[game_id] },
        )
        &&& r == Ok::<Seq<Addressed>, JoinError>(before[game_id].introductions(player_id))
    }
}

/// What it does to the games `before` that the player `player_id` leaves the
/// game `game_id`, in which it plays: the games `after` and the notices `out`.
///
/// The game of a single player is destroyed. Where the primary player leaves
/// the other one, the secondary player becomes primary, and the side of the
/// primary player becomes the opposite one. Where the secondary player leaves,
/// its place is free. The player who stays is told that the opponent is gone.
pub open spec fn leave_step(
    before: Map<Seq<char>, Session>,
    after: Map<Seq<char>, Session>,
    game_id: Seq<char>,
    player_id: Seq<char>,
    out: Seq<Addressed>,
) -> bool {
    let s = before[game_id];
    match s.secondary {
        None => {
            &&& after == before.remove(game_id)
            &&& out == Seq::<Addressed>::empty()
        },
        Some(sec) => if s.primary == player_id {
            &&& after == before.insert(
                game_id,
                Session {
                    primary: sec,
                    secondary: None,
                    primary_side: s.primary_side.spec_opposite(),
                    ..s
                },
            )
            &&& out == seq![Addressed { to: sec, msg: Notice::OpponentIsGone }]
        } else {
            &&& after == before.insert(game_id, Session { secondary: None, ..s })
            &&& out == seq![Addressed { to: s.primary, msg: Notice::OpponentIsGone }]
        },
    }
}

/// What it does to the games `before` that the player `player_id` of the game
/// `game_id` puts a token of `side` on the pole `p`: the games `after` and the
/// result `r`.
///
/// The token is taken where the game is there with this player in it, has no
/// winner, and the pole is not full. It settles, and the game is won by `side`
/// if a line is complete now, or else waits for the other side. Otherwise
/// nothing changes.
pub open spec fn put_step(
    before: Map<Seq<char>, Session>,
    after: Map<Seq<char>, Session>,
    game_id: Seq<char>,
    player_id: Seq<char>,
    side: Side,
    p: PoleCoords,
    r: Result<(), PlayError>,
) -> bool {
    if !before.dom().contains(game_id) || !before[game_id].has_player(player_id) {
        &&& after == before
        &&& r == Err::<(), PlayError>(PlayError::NotInGame)
    } else if !no_win(before[game_id].board) {
        &&& after == before
        &&& r == Err::<(), PlayError>(
            PlayError::Refused(PutError::WinnerDecided(winner_of(before[game_id].board)->0)),
        )
    } else if pole_full(before[game_id].board, p) {
        &&& after == before
        &&& r == Err::<(), PlayError>(PlayError::Refused(PutError::PoleFull))
    } else {
        let s = before[game_id];
        &&& after == before.insert(
            game_id,
            Session {
                board: with_token(s.board, side, p, landing_height(s.board, p)),
                game_state: state_after_put(
                    with_token(s.board, side, p, landing_height(s.board, p)),
                    side,
                ),
                ..s
            },
        )
        &&& r == Ok::<(), PlayError>(())
    }
}

/// A game of the registry that has a winner takes no more tokens: whoever
/// tries to put one, the games stay as they are, and so does the game state of
/// that game.
pub proof fn lemma_won_game_takes_no_token(
    before: Map<Seq<char>, Session>,
    after: Map<Seq<char>, Session>,
    game_id: Seq<char>,
    player_id: Seq<char>,
    side: Side,
    p: PoleCoords,
    r: Result<(), PlayError>,
)
    requires
        before.dom().contains(game_id),
        !no_win(before[game_id].board),
        put_step(before, after, game_id, player_id, side, p, r),
    ensures
        after == before,
        r is Err,
{
}

/// A token that completes a line wins the game for its side at once: the game
/// state of the game is `WonBy` that side.
pub proof fn lemma_winning_token_wins(
    before: Map<Seq<char>, Session>,
    after: Map<Seq<char>, Session>,
    game_id: Seq<char>,
    player_id: Seq<char>,
    side: Side,
    p: PoleCoords,
    r: Result<(), PlayError>,
)
    requires
        put_step(before, after, game_id, player_id, side, p, r),
        r is Ok,
    ensures
        after.dom().contains(game_id),
        after[game_id].board == with_token(
            before[game_id].board,
            side,
            p,
            landing_height(before[game_id].board, p),
        ),
        !no_win(after[game_id].board) ==> after[game_id].game_state == GameState::WonBy(side),
        no_win(after[game_id].board) ==> after[game_id].game_state == GameState::WaitingFor(
            side.spec_opposite(),
        ),
{
}

/// A player who joins a game that has a winner gets a new game in its place, as
/// its primary player and with the game state that it offers, whoever played
/// in the finished game.
pub proof fn lemma_finished_game_is_replaced(
    before: Map<Seq<char>, Session>,
    after: Map<Seq<char>, Session>,
    game_id: Seq<char>,
    player_id: Seq<char>,
    state: WSFullGameState,
    r: Result<Seq<Addressed>, JoinError>,
)
    requires
        before.dom().contains(game_id),
        !no_win(before[game_id].board),
        join_step(before, after, game_id, player_id, state, r),
    ensures
        after.dom().contains(game_id),
        after[game_id] == Session::fresh(player_id, state),
        r == Ok::<Seq<Addressed>, JoinError>(Seq::empty()),
        forall|other: Seq<char>|
            other != game_id ==> (#[trigger] after.dom().contains(other)) == before.dom().contains(
                other,
            ) && after[other] == before[other],
{
}

/// When one of the two players of a game leaves and a player joins the game
/// afterwards, the game goes on where it was: the board and the game state are
/// the same, the player who stayed is the primary one and keeps its side, and
/// the player who joined has the side of the one who left. The two players
/// have different ids, as the players of one game need to.
pub proof fn lemma_rejoin_resumes(
    before: Map<Seq<char>, Session>,
    between: Map<Seq<char>, Session>,
    after: Map<Seq<char>, Session>,
    game_id: Seq<char>,
    leaver: Seq<char>,
    joiner: Seq<char>,
    state: WSFullGameState,
    gone: Seq<Addressed>,
    r: Result<Seq<Addressed>, JoinError>,
)
    requires
        before.dom().contains(game_id),
        before[game_id].secondary is Some,
        before[game_id].secondary != Some(before[game_id].primary),
        before[game_id].has_player(leaver),
        no_win(before[game_id].board),
        leave_step(before, between, game_id, leaver, gone),
        join_step(between, after, game_id, joiner, state, r),
    ensures
        ({
            let s = before[game_id];
            let stayed = if s.primary == leaver {
                s.secondary->0
            } else {
                s.primary
            };
            &&& gone == seq![Addressed { to: stayed, msg: Notice::OpponentIsGone }]
            &&& after.dom().contains(game_id)
            &&& after[game_id].board == s.board
            &&& after[game_id].game_state == s.game_state
            &&& after[game_id].primary == stayed
            &&& after[game_id].secondary == Some(joiner)
            &&& after[game_id].primary_side == s.side_of(stayed)
            &&& r == Ok::<Seq<Addressed>, JoinError>(
                seq![
                    Addressed {
                        to: stayed,
                        msg: Notice::OpponentIsHere {
                            to_opponent: joiner,
                            my_side: s.side_of(stayed),
                        },
                    },
                    Addressed {
                        to: joiner,
                        msg: Notice::OpponentIsHere {
                            to_opponent: stayed,
                            my_side: s.side_of(stayed).spec_opposite(),
                        },
                    },
                ],
            )
        }),
{
}

impl GameData {
    /// The primary player is set, and the game is well-formed.
    pub closed spec fn wf(&self) -> bool {
        self.player_pri is Some && self.game.wf()
    }

    /// Number of players of the game, 1 or 2.
    fn num_players(&self) -> (r: usize)
        requires
            self.wf(),
        ensures
            r == if self@.secondary is Some { 2usize } else { 1usize },
    {
        let mut ret: usize = 0;
        if let Some(_) = self.player_pri {
            ret += 1;
        }
        if let Some(_) = self.player_sec {
            ret += 1;
        }
        ret
    }

    /// Move the secondary player to be primary, and forget the primary one.
    fn sec_to_pri(&mut self)
        requires
            old(self).wf(),
            old(self)@.secondary is Some,
        ensures
            final(self).wf(),
            final(self)@ == (Session {
                primary: old(self)@.secondary->0,
                secondary: None,
                primary_side: old(self)@.primary_side.spec_opposite(),
                ..old(self)@
            }),
    {
        core::mem::swap(&mut self.player_pri, &mut self.player_sec);
        self.player_pri_side = self.player_pri_side.opposite();
        self.player_sec = None;
    }
}

impl GameCtx {
    /// The game that a first player starts with the game state that it offers.
    fn new(game_id: String, player_id: String, game_state: WSFullGameState) -> (r: GameCtx)
        ensures
            r.id == game_id,
            r.data.wf(),
            r.data@ == Session::fresh(player_id@, game_state),
    {
        let player_pri = Player { id: player_id };
        let mut g = Game::new();
        g.reset_board(&game_state.board);
        GameCtx {
            id: game_id,
            data: GameData {
                player_pri: Some(player_pri),
                player_sec: None,
                game_state: game_state.game_state,
                player_pri_side: game_state.ws_player_side,
                game: g,
            },
        }
    }
}

impl View for Registry {
    type V = Map<Seq<char>, Session>;

    /// The games by their ids.
    closed spec fn view(&self) -> Map<Seq<char>, Session> {
        Map::new(|id: Seq<char>| self.has(id), |id: Seq<char>| self.games@[self.position(id)].data@)
    }
}

impl Registry {
    /// There is a game with the given id.
    spec fn has(&self, id: Seq<char>) -> bool {
        exists|i: int| 0 <= i < self.games@.len() && #[trigger] self.games@[i].id@ == id
    }

    /// Where the game with the given id stands in the list of games.
    spec fn position(&self, id: Seq<char>) -> int {
        choose|i: int| 0 <= i < self.games@.len() && #[trigger] self.games@[i].id@ == id
    }

    /// No two games have the same id, and every game is well-formed.
    pub closed spec fn wf(&self) -> bool {
        &&& forall|i: int, j: int|
            0 <= i < j < self.games@.len() ==> #[trigger] self.games@[i].id@
                != #[trigger] self.games@[j].id@
        &&& forall|i: int| 0 <= i < self.games@.len() ==> (#[trigger] self.games@[i]).data.wf()
    }

    /// The player with the given id plays in the game with the given id.
    pub open spec fn has_player(&self, game_id: Seq<char>, player_id: Seq<char>) -> bool {
        self@.dom().contains(game_id) && self@[game_id].has_player(player_id)
    }

    /// The game at the position `i` is found under its id.
    proof fn lemma_view_at(&self, i: int)
        requires
            self.wf(),
            0 <= i < self.games@.len(),
        ensures
            self@.dom().contains(self.games@[i].id@),
            self@[self.games@[i].id@] == self.games@[i].data@,
            self.position(self.games@[i].id@) == i,
    {
        let id = self.games@[i].id@;
        assert(self.has(id));
        let j = self.position(id);
        assert(0 <= j < self.games@.len() && self.games@[j].id@ == id);
        if j < i {
            assert(self.games@[j].id@ != self.games@[i].id@);
        }
        if i < j {
            assert(self.games@[i].id@ != self.games@[j].id@);
        }
    }

    /// The games are those of `m`, where each game of the list is in `m` under
    /// its id, and `m` holds nothing else.
    proof fn lemma_view_is(&self, m: Map<Seq<char>, Session>)
        requires
            self.wf(),
            forall|i: int|
                0 <= i < self.games@.len() ==> m.dom().contains(#[trigger] self.games@[i].id@)
                    && m[self.games@[i].id@] == self.games@[i].data@,
            forall|id: Seq<char>| #[trigger] m.dom().contains(id) ==> self.has(id),
        ensures
            self@ == m,
    {
        assert forall|id: Seq<char>| self@.dom().contains(id) implies #[trigger] m.dom().contains(
            id,
        ) && m[id] == self@[id] by {
            let i = self.position(id);
            assert(m.dom().contains(self.games@[i].id@));
        }
        assert(self@ =~= m);
    }

    /// Create a new empty registry.
    pub fn new() -> (r: Registry)
        ensures
            r.wf(),
            r@ == Map::<Seq<char>, Session>::empty(),
    {
        let r = Registry { games: Vec::new() };
        assert(r@ =~= Map::<Seq<char>, Session>::empty());
        r
    }

    /// The position of the game with the given id, if there is one.
    fn find(&self, game_id: &String) -> (r: Option<usize>)
        requires
            self.wf(),
        ensures
            match r {
                Some(i) => {
                    &&& i < self.games@.len()
                    &&& self.games@[i as int].id@ == game_id@
                    &&& self@.dom().contains(game_id@)
                    &&& self@[game_id@] == self.games@[i as int].data@
                },
                None => {
                    &&& !self@.dom().contains(game_id@)
                    &&& forall|i: int|
                        0 <= i < self.games@.len() ==> (#[trigger] self.games@[i]).id@ != game_id@
                },
            },
    {
        let mut i: usize = 0;
        while i < self.games.len()
            invariant
                self.wf(),
                i <= self.games@.len(),
                forall|j: int| 0 <= j < i ==> (#[trigger] self.games@[j]).id@ != game_id@,
            decreases self.games@.len() - i,
        {
            if self.games[i].id == *game_id {
                proof {
                    self.lemma_view_at(i as int);
                }
                return Some(i);
            }
            i += 1;
        }
        proof {
            if self.has(game_id@) {
                let j = self.position(game_id@);
                assert(self.games@[j].id@ != game_id@);
            }
        }
        None
    }

    /// Whether the player with the given id plays in the game with the given id.
    pub fn is_member(&self, game_id: &str, player_id: &str) -> (r: bool)
        requires
            self.wf(),
        ensures
            r == self.has_player(game_id@, player_id@),
    {
        let gid = game_id.to_owned();
        let pid = player_id.to_owned();
        match self.find(&gid) {
            Some(i) => self.games[i].data.plays(&pid),
            None => false,
        }
    }

    /// Either join the existing game with the given id, or create a new one if
    /// there is none. If the game has both players already, an error is returned.
    ///
    /// The notices that are returned on success are to be delivered in order.
    /// Player ids need to be unique within a game only.
    pub fn join_or_create_game(
        &mut self,
        game_id: &str,
        player_id: &str,
        game_state: WSFullGameState,
    ) -> (r: Result<Vec<Delivery>, JoinError>)
        requires
            old(self).wf(),
        ensures
            final(self).wf(),
            join_step(
                old(self)@,
                final(self)@,
                game_id@,
                player_id@,
                game_state,
                match r {
                    Ok(d) => Ok(d.deep_view()),
                    Err(e) => Err(e),
                },
            ),
    {
        let gid = game_id.to_owned();
        let pid = player_id.to_owned();

        // Try to join an existing game, if any.
        match self.try_join_game(&gid, &pid) {
            Some(res) => {
                return res;
            },
            None => {},
        }

        // There is no existing game, so create a new one.
        let ghost mid = *self;
        let gc = GameCtx::new(gid, pid, game_state);
        self.games.push(gc);
        proof {
            assert forall|i: int| 0 <= i < mid.games@.len() implies (#[trigger] mid.games@[i]).id@
                != game_id@ by {
                mid.lemma_view_at(i);
            }
            assert(self.wf()) by {
                assert forall|a: int, b: int|
                    0 <= a < b < self.games@.len() implies #[trigger] self.games@[a].id@
                    != #[trigger] self.games@[b].id@ by {
                    if b < mid.games@.len() {
                        assert(mid.games@[a].id@ != mid.games@[b].id@);
                    } else {
                        assert(mid.games@[a].id@ != game_id@);
                    }
                }
                assert forall|j: int| 0 <= j < self.games@.len() implies (
                #[trigger] self.games@[j]).data.wf() by {
                    if j < mid.games@.len() {
                        assert(mid.games@[j].data.wf());
                    }
                }
            }
            let fresh = Session::fresh(player_id@, game_state);
            let m = mid@.insert(game_id@, fresh);
            assert forall|i: int| 0 <= i < self.games@.len() implies m.dom().contains(
                #[trigger] self.games@[i].id@,
            ) && m[self.games@[i].id@] == self.games@[i].data@ by {
                if i < mid.games@.len() {
                    mid.lemma_view_at(i);
                }
            }
            assert forall|id: Seq<char>| #[trigger] m.dom().contains(id) implies self.has(id) by {
                if id == game_id@ {
                    assert(self.games@[mid.games@.len() as int].id@ == id);
                } else {
                    let i = mid.position(id);
                    assert(self.games@[i].id@ == id);
                }
            }
            self.lemma_view_is(m);
            assert(m =~= old(self)@.insert(game_id@, fresh));
        }
        let out: Vec<Delivery> = Vec::new();
        assert(out.deep_view() =~= Seq::<Addressed>::empty());
        Ok(out)
    }

    /// Try joining an existing game, if any. No result means that there is no
    /// game to join, so the caller creates one: there was none, or it had a
    /// winner and is deleted. A finished game is deleted so that a new one can
    /// start as soon as either player comes back, without both of them having
    /// to disconnect first.
    fn try_join_game(&mut self, game_id: &String, player_id: &String) -> (r: Option<
        Result<Vec<Delivery>, JoinError>,
    >)
        requires
            old(self).wf(),
        ensures
            final(self).wf(),
            !old(self)@.dom().contains(game_id@) ==> r is None && *final(self) == *old(self),
            old(self)@.dom().contains(game_id@) && !no_win(old(self)@[game_id@].board) ==> {
                &&& r is None
                &&& final(self)@ == old(self)@.remove(game_id@)
            },
            old(self)@.dom().contains(game_id@) && no_win(old(self)@[game_id@].board) ==> {
                &&& r matches Some(res)
                &&& match old(self)@[game_id@].secondary {
                    Some(_) => {
                        &&& res == Err::<Vec<Delivery>, JoinError>(JoinError::AlreadyFull)
                        &&& final(self)@ == old(self)@
                    },
                    None => {
                        &&& res matches Ok(d)
                        &&& d.deep_view() == old(self)@[game_id@].introductions(player_id@)
                        &&& final(self)@ == old(self)@.insert(
                            game_id@,
                            Session { secondary: Some(player_id@), ..old(self)@[game_id@] },
                        )
                    },
                }
            },
    {
        let i = match self.find(game_id) {
            Some(i) => i,
            // If the game does not exist yet, let the caller create one.
            None => {
                return None;
            },
        };

        // The game already exists. If it is over already (there is a winner),
        // delete it and go on as if it did not exist.
        if !self.games[i].data.game.get_win_row().is_none() {
            proof {
                self.games@[i as int].data.lemma_winner_on_board();
            }
            self.games.remove(i);
            proof {
                self.lemma_removed(*old(self), i as int);
            }
            return None;
        }
        proof {
            self.games@[i as int].data.lemma_winner_on_board();
        }

        // The game exists and has not ended yet: see how many players are there.
        // If both are there, error out; otherwise add the new player.
        if let Some(_) = self.games[i].data.player_sec {
            return Some(Err(JoinError::AlreadyFull));
        }
        // The game only had a single player, so this one is the secondary one.

        let pri_id = self.games[i].data.primary_id();
        let pri_side = self.games[i].data.player_pri_side;
        self.games[i].data.player_sec = Some(Player { id: player_id.clone() });

        // Introduce both players to each other.
        let mut out: Vec<Delivery> = Vec::new();
        out.push(
            Delivery {
                to: pri_id.clone(),
                msg: PlayerToPlayer::OpponentIsHere(
                    GameStartOrResume { to_opponent: player_id.clone(), my_side: pri_side },
                ),
            },
        );
        out.push(
            Delivery {
                to: player_id.clone(),
                msg: PlayerToPlayer::OpponentIsHere(
                    GameStartOrResume { to_opponent: pri_id, my_side: pri_side.opposite() },
                ),
            },
        );
        proof {
            let s = old(self)@[game_id@];
            assert(out.deep_view() =~= s.introductions(player_id@));
            self.lemma_replaced(*old(self), i as int, Session { secondary: Some(player_id@), ..s });
        }
        Some(Ok(out))
    }

    /// Where one game of the list has changed and kept its id, the games are
    /// the former ones with the changed one under its id.
    proof fn lemma_replaced(&self, before: Registry, i: int, s: Session)
        requires
            before.wf(),
            0 <= i < before.games@.len(),
            self.games@.len() == before.games@.len(),
            forall|j: int|
                0 <= j < before.games@.len() && j != i ==> self.games@[j] == before.games@[j],
            self.games@[i].id == before.games@[i].id,
            self.games@[i].data.wf(),
            self.games@[i].data@ == s,
        ensures
            self.wf(),
            self@ == before@.insert(before.games@[i].id@, s),
    {
        assert forall|j: int| 0 <= j < self.games@.len() implies (#[trigger] self.games@[j].id@)
            == before.games@[j].id@ by {}
        assert(self.wf()) by {
            assert forall|a: int, b: int|
                    0 <= a < b < self.games@.len() implies #[trigger] self.games@[a].id@
                != #[trigger] self.games@[b].id@ by {
                assert(before.games@[a].id@ != before.games@[b].id@);
            }
            assert forall|j: int| 0 <= j < self.games@.len() implies (
                #[trigger] self.games@[j]).data.wf() by {
                if j != i {
                    assert(before.games@[j].data.wf());
                }
            }
        }
        let m = before@.insert(before.games@[i].id@, s);
        assert forall|j: int| 0 <= j < self.games@.len() implies m.dom().contains(
            #[trigger] self.games@[j].id@,
        ) && m[self.games@[j].id@] == self.games@[j].data@ by {
            before.lemma_view_at(j);
            before.lemma_view_at(i);
        }
        assert forall|id: Seq<char>| #[trigger] m.dom().contains(id) implies self.has(id) by {
            if id == before.games@[i].id@ {
                assert(self.games@[i].id@ == id);
            } else {
                let k = before.position(id);
                assert(self.games@[k].id@ == id);
            }
        }
        self.lemma_view_is(m);
    }

    /// Where one game has been taken out of the list, the games are the
    /// former ones without the one of that id.
    proof fn lemma_removed(&self, before: Registry, i: int)
        requires
            before.wf(),
            0 <= i < before.games@.len(),
            self.games@ == before.games@.remove(i),
        ensures
            self.wf(),
            self@ == before@.remove(before.games@[i].id@),
    {
        assert(self.wf()) by {
            assert forall|a: int, b: int|
                0 <= a < b < self.games@.len() implies #[trigger] self.games@[a].id@
                != #[trigger] self.games@[b].id@ by {
                let ka = if a < i { a } else { a + 1 };
                let kb = if b < i { b } else { b + 1 };
                assert(before.games@[ka].id@ != before.games@[kb].id@);
            }
            assert forall|j: int| 0 <= j < self.games@.len() implies (
            #[trigger] self.games@[j]).data.wf() by {
                let k = if j < i { j } else { j + 1 };
                assert(before.games@[k].data.wf());
            }
        }
        let m = before@.remove(before.games@[i].id@);
        assert forall|j: int| 0 <= j < self.games@.len() implies m.dom().contains(
            #[trigger] self.games@[j].id@,
        ) && m[self.games@[j].id@] == self.games@[j].data@ by {
            let k = if j < i { j } else { j + 1 };
            before.lemma_view_at(k);
            before.lemma_view_at(i);
        }
        assert forall|id: Seq<char>| #[trigger] m.dom().contains(id) implies self.has(id) by {
            let k = before.position(id);
            before.lemma_view_at(i);
            let j = if k < i { k } else { k - 1 };
            assert(self.games@[j].id@ == id);
        }
        self.lemma_view_is(m);
    }

    /// Whether the registry has a game with the given id.
    pub fn has_game(&self, game_id: &str) -> (r: bool)
        requires
            self.wf(),
        ensures
            r == self@.dom().contains(game_id@),
    {
        let gid = game_id.to_owned();
        match self.find(&gid) {
            Some(_) => true,
            None => false,
        }
    }

    /// The player with the given id leaves the game with the given id, in
    /// which it plays. If it was the last player of this game, the game is
    /// destroyed.
    pub fn leave_game(&mut self, game_id: &str, player_id: &str) -> (r: Vec<Delivery>)
        requires
            old(self).wf(),
            old(self).has_player(game_id@, player_id@),
        ensures
            final(self).wf(),
            leave_step(old(self)@, final(self)@, game_id@, player_id@, r.deep_view()),
    {
        let gid = game_id.to_owned();
        let pid = player_id.to_owned();
        let mut out: Vec<Delivery> = Vec::new();
        let i = match self.find(&gid) {
            Some(i) => i,
            None => {
                return out;
            },
        };
        let ghost s = old(self)@[game_id@];
        match self.games[i].data.num_players() {
            1 => {
                // With one player, just destroy the game: no players are left.
                self.games.remove(i);
                proof {
                    self.lemma_removed(*old(self), i as int);
                    assert(out.deep_view() =~= Seq::<Addressed>::empty());
                }
            },
            _ => {
                // With two players, whoever stays is left as the primary one.
                let pri_id = self.games[i].data.primary_id();
                let sec_id = self.games[i].data.secondary_id();
                if pri_id == pid {
                    // The primary player left: the secondary one becomes primary.
                    out.push(Delivery { to: sec_id, msg: PlayerToPlayer::OpponentIsGone });
                    self.games[i].data.sec_to_pri();
                    proof {
                        assert(out.deep_view() =~= seq![
                            Addressed { to: s.secondary->0, msg: Notice::OpponentIsGone },
                        ]);
                        self.lemma_replaced(
                            *old(self),
                            i as int,
                            Session {
                                primary: s.secondary->0,
                                secondary: None,
                                primary_side: s.primary_side.spec_opposite(),
                                ..s
                            },
                        );
                    }
                } else {
                    // Otherwise, forget the secondary player.
                    out.push(Delivery { to: pri_id, msg: PlayerToPlayer::OpponentIsGone });
                    self.games[i].data.player_sec = None;
                    proof {
                        assert(out.deep_view() =~= seq![
                            Addressed { to: s.primary, msg: Notice::OpponentIsGone },
                        ]);
                        self.lemma_replaced(
                            *old(self),
                            i as int,
                            Session { secondary: None, ..s },
                        );
                    }
                }
            },
        }
        out
    }

    /// The player with the given id puts a token of `side` on the given pole
    /// of the board of its game. Where the token is taken, the game is won by
    /// `side` if the token completes a line, and waits for the other side
    /// otherwise.
    pub fn put_token(
        &mut self,
        game_id: &str,
        player_id: &str,
        side: Side,
        pcoords: PoleCoords,
    ) -> (r: Result<(), PlayError>)
        requires
            old(self).wf(),
            pcoords.in_bounds(),
        ensures
            final(self).wf(),
            put_step(old(self)@, final(self)@, game_id@, player_id@, side, pcoords, r),
    {
        let gid = game_id.to_owned();
        let pid = player_id.to_owned();
        let i = match self.find(&gid) {
            Some(i) => i,
            None => {
                return Err(PlayError::NotInGame);
            },
        };
        if !self.games[i].data.plays(&pid) {
            return Err(PlayError::NotInGame);
        }
        let ghost s = old(self)@[game_id@];
        proof {
            self.games@[i as int].data.lemma_winner_on_board();
        }
        let res = match self.games[i].data.game.put_token(side, pcoords) {
            Ok(res) => res,
            Err(e) => {
                proof {
                    self.lemma_replaced(*old(self), i as int, s);
                    assert(old(self)@.insert(game_id@, s) =~= old(self)@);
                }
                return Err(PlayError::Refused(e));
            },
        };
        // The game is won by this token, or the turn passes.
        self.games[i].data.game_state = if res.won {
            GameState::WonBy(side)
        } else {
            GameState::WaitingFor(side.opposite())
        };
        proof {
            let b = with_token(s.board, side, pcoords, landing_height(s.board, pcoords));
            lemma_scan(b, self.games@[i as int].data.game.win_row());
            self.lemma_replaced(
                *old(self),
                i as int,
                Session { board: b, game_state: state_after_put(b, side), ..s },
            );
        }
        Ok(())
    }

    /// The full state of the game with the given id for the player with the
    /// given id, where it plays in that game: the game state and the board,
    /// with the given side as that of the player behind the connection.
    pub fn full_state(&self, game_id: &str, player_id: &str, side: Side) -> (r: Option<
        WSFullGameState,
    >)
        requires
            self.wf(),
        ensures
            r is Some <==> self.has_player(game_id@, player_id@),
            r matches Some(st) ==> {
                &&& st.game_state == self@[game_id@].game_state
                &&& st.ws_player_side == side
                &&& st.board@ == self@[game_id@].board
            },
    {
        let gid = game_id.to_owned();
        let pid = player_id.to_owned();
        let i = match self.find(&gid) {
            Some(i) => i,
            None => {
                return None;
            },
        };
        if !self.games[i].data.plays(&pid) {
            return None;
        }
        Some(
            WSFullGameState {
                game_state: self.games[i].data.game_state,
                ws_player_side: side,
                board: self.games[i].data.game.get_board().clone(),
            },
        )
    }
}

impl GameData {
    /// The game has a winner exactly where a side holds a line of the board,
    /// and the winner is that of the board.
    proof fn lemma_winner_on_board(&self)
        requires
            self.wf(),
        ensures
            self.game.win_row() is Some <==> !no_win(self@.board),
            self.game.winner() == winner_of(self@.board),
    {
        lemma_scan(self.game@, self.game.win_row());
    }

    /// Whether the player with the given id plays in this game.
    fn plays(&self, player_id: &String) -> (r: bool)
        requires
            self.wf(),
        ensures
            r == self@.has_player(player_id@),
    {
        let is_pri = match &self.player_pri {
            Some(p) => p.id == *player_id,
            None => false,
        };
        let is_sec = match &self.player_sec {
            Some(p) => p.id == *player_id,
            None => false,
        };
        is_pri || is_sec
    }

    /// The id of the primary player.
    fn primary_id(&self) -> (r: String)
        requires
            self.wf(),
        ensures
            r@ == self@.primary,
    {
        match &self.player_pri {
            Some(p) => p.id.clone(),
            None => String::new(),
        }
    }

    /// The id of the secondary player, where there is one.
    fn secondary_id(&self) -> (r: String)
        requires
            self@.secondary is Some,
        ensures
            r@ == self@.secondary->0,
    {
        match &self.player_sec {
            Some(p) => p.id.clone(),
            None => String::new(),
        }
    }
}

} // verus!
