//! The turn coordinator of one game between two players and a display.
//!
//! The manager owns the game and decides; it performs no communication of its
//! own. Each message from a player is handed to `handle_player_msg`, which
//! updates the manager and returns the messages to send, in order.

pub mod player_local;
pub mod player_ws_client;

use crate::game::{
    empty_board, is_landing, is_scan_result, landing_height, no_win, pole_full, with_token,
    BoardState, Game, PoleCoords, Side, TokenCoords, WinRow,
};
use vstd::prelude::*;

verus! {

/// State of the game: either waiting for the move of a side, or won by a side.
#[derive(Debug, Copy, Clone, PartialEq, Eq, Structural)]
pub enum GameState {
    WaitingFor(Side),
    WonBy(Side),
}

/// Full state of the game: the board, the turn and the side of the primary player.
#[derive(Debug)]
pub struct FullGameState {
    /// Either waiting for someone's turn, or someone has won already.
    pub game_state: GameState,
    /// Side of the primary player, the one who sends this state. The other
    /// player has the opposite side.
    pub primary_player_side: Side,
    /// Full board state.
    pub board: BoardState,
}

/// Player state from the point of view of the manager.
#[derive(Debug)]
pub enum PlayerState {
    /// Not ready yet, with a human-readable explanation.
    NotReady(String),
    /// Ready to play. Local players are always ready.
    Ready,
}

/// Message that the manager sends to a player.
#[derive(Debug)]
pub enum GameManagerToPlayer {
    /// Reset the game: the board state, and the side of the receiving player.
    Reset(BoardState, Side),
    /// The opponent has put a token on the given pole.
    OpponentPutToken(PoleCoords),
    /// The game state has changed.
    GameStateChanged(GameState),
}

/// Message that a player sends to the manager.
#[derive(Debug)]
pub enum PlayerToGameManager {
    /// Overwrite the full game state. Only the primary player is listened to.
    SetFullGameState(FullGameState),
    /// The state of the player has changed.
    StateChanged(PlayerState),
    /// The player puts a token on the given pole.
    PutToken(PoleCoords),
}

/// Message that the manager sends to the display.
#[derive(Debug)]
pub enum GameManagerToUI {
    /// Set a token of the given side at the given coordinates.
    SetToken(Side, TokenCoords),
    /// The whole board is reset to this new state.
    ResetBoard(BoardState),
    /// The player with the given index, 0 or 1, has changed its state.
    PlayerStateChanged(usize, PlayerState),
    /// The sides of the players 0 and 1 have changed.
    PlayerSidesChanged(Side, Side),
    /// The game state has changed.
    GameStateChanged(GameState),
    /// There is a winner.
    WinRow(WinRow),
}

/// A message that the manager wants sent, with its receiver.
#[derive(Debug)]
pub enum Outgoing {
    /// To the player with the given index, 0 or 1.
    ToPlayer(usize, GameManagerToPlayer),
    /// To the display.
    ToUI(GameManagerToUI),
}

/// What the manager knows of a single player.
struct PlayerCtx {
    /// Current side of the player.
    side: Option<Side>,
    /// Current state of the player.
    state: PlayerState,
}

/// Orchestrates the game between the display and two players. The player 0 is
/// the primary one: the manager listens to it when it resets the whole game.
pub struct GameManager {
    game: Game,
    game_state: Option<GameState>,
    players: [PlayerCtx; 2],
}

/// The announcement of the game state `gs` to both players and the display.
pub open spec fn state_broadcast(gs: GameState) -> Seq<Outgoing> {
    seq![
        Outgoing::ToPlayer(0, GameManagerToPlayer::GameStateChanged(gs)),
        Outgoing::ToPlayer(1, GameManagerToPlayer::GameStateChanged(gs)),
        Outgoing::ToUI(GameManagerToUI::GameStateChanged(gs)),
    ]
}

/// The announcement of the game state, if there is one yet.
pub open spec fn resync(gs: Option<GameState>) -> Seq<Outgoing> {
    match gs {
        Some(s) => state_broadcast(s),
        None => Seq::empty(),
    }
}

/// What the manager sends after `side` has put a token on the pole `p`, where
/// it settled at the height `y`: the token for the display, the move for the
/// other player, and the winning row for the display if there is one now.
pub open spec fn put_announcement(
    side: Side,
    p: PoleCoords,
    y: int,
    other: int,
    win_row: Option<WinRow>,
) -> Seq<Outgoing> {
    seq![
        Outgoing::ToUI(
            GameManagerToUI::SetToken(side, TokenCoords { x: p.x, y: y as usize, z: p.z }),
        ),
        Outgoing::ToPlayer(other as usize, GameManagerToPlayer::OpponentPutToken(p)),
    ] + match win_row {
        Some(w) => seq![Outgoing::ToUI(GameManagerToUI::WinRow(w))],
        None => Seq::empty(),
    }
}

/// What the manager sends when the primary player has set the full game state `f`.
pub open spec fn reset_announcement(f: FullGameState) -> Seq<Outgoing> {
    seq![
        Outgoing::ToPlayer(
            1,
            GameManagerToPlayer::Reset(f.board, f.primary_player_side.spec_opposite()),
        ),
        Outgoing::ToUI(GameManagerToUI::ResetBoard(f.board)),
        Outgoing::ToUI(
            GameManagerToUI::PlayerSidesChanged(
                f.primary_player_side,
                f.primary_player_side.spec_opposite(),
            ),
        ),
    ] + state_broadcast(f.game_state)
}

/// The game state after `side` has put a token that gave the board `b`.
pub open spec fn state_after_put(b: Seq<Option<Side>>, side: Side) -> GameState {
    if no_win(b) {
        GameState::WaitingFor(side.spec_opposite())
    } else {
        GameState::WonBy(side)
    }
}

impl Clone for PlayerState {
    fn clone(&self) -> (r: PlayerState)
        ensures
            r == *self,
    {
        match self {
            PlayerState::NotReady(s) => PlayerState::NotReady(s.clone()),
            PlayerState::Ready => PlayerState::Ready,
        }
    }
}

impl GameManager {
    /// The cells of the board.
    pub closed spec fn board(&self) -> Seq<Option<Side>> {
        self.game@
    }

    /// The winning row, if the game has one.
    pub closed spec fn win_row(&self) -> Option<WinRow> {
        self.game.win_row()
    }

    /// The game state; none before the primary player has set one.
    pub closed spec fn game_state(&self) -> Option<GameState> {
        self.game_state
    }

    /// The side of the player `i`, if it has one yet.
    pub closed spec fn player_side(&self, i: int) -> Option<Side> {
        self.players@[i].side
    }

    /// The last state that the player `i` has reported.
    pub closed spec fn player_state(&self, i: int) -> PlayerState {
        self.players@[i].state
    }

    /// The remembered winning row is that of the board, and the players have
    /// opposite sides from the moment at which there is a game state.
    pub open spec fn wf(&self) -> bool {
        &&& is_scan_result(self.board(), self.win_row())
        &&& match self.player_side(0) {
            Some(s) => self.player_side(1) == Some(s.spec_opposite()) && self.game_state() is Some,
            None => self.player_side(1) is None && self.game_state() is None,
        }
    }

    /// It is the turn of the player `i`: the game waits for the side that
    /// this player has.
    pub open spec fn is_turn_of(&self, i: int) -> bool {
        &&& self.game_state() matches Some(GameState::WaitingFor(s))
        &&& self.player_side(i) == Some(s)
    }

    /// The manager takes, as things are, a token of the player `i` on the pole `p`.
    pub open spec fn accepts_put(&self, i: int, p: PoleCoords) -> bool {
        &&& self.is_turn_of(i)
        &&& self.win_row() is None
        &&& !pole_full(self.board(), p)
    }

    /// The sides and states of both players are those of `before`.
    pub open spec fn same_players(&self, before: &GameManager) -> bool {
        &&& self.player_side(0) == before.player_side(0)
        &&& self.player_side(1) == before.player_side(1)
        &&& self.player_state(0) == before.player_state(0)
        &&& self.player_state(1) == before.player_state(1)
    }

    /// The board, its winning row and the game state are those of `before`.
    pub open spec fn same_game(&self, before: &GameManager) -> bool {
        &&& self.board() == before.board()
        &&& self.win_row() == before.win_row()
        &&& self.game_state() == before.game_state()
    }

    /// What a full game state `f` from the player `i` does to the manager
    /// `self`, giving `after` and the messages `out`. That of the secondary
    /// player is ignored. That of the primary player is adopted whole: the
    /// board, the sides (the secondary player gets the opposite one) and the
    /// game state.
    pub open spec fn full_state_step(
        &self,
        after: &GameManager,
        i: int,
        f: FullGameState,
        out: Seq<Outgoing>,
    ) -> bool {
        if i != 0 {
            &&& after.same_game(self)
            &&& after.same_players(self)
            &&& out == Seq::<Outgoing>::empty()
        } else {
            &&& after.board() == f.board@
            &&& after.game_state() == Some(f.game_state)
            &&& after.player_side(0) == Some(f.primary_player_side)
            &&& after.player_side(1) == Some(f.primary_player_side.spec_opposite())
            &&& after.player_state(0) == self.player_state(0)
            &&& after.player_state(1) == self.player_state(1)
            &&& out == reset_announcement(f)
        }
    }

    /// What a report of the state `state` from the player `i` does: it is
    /// remembered and handed on to the display, and nothing else changes.
    pub open spec fn state_change_step(
        &self,
        after: &GameManager,
        i: int,
        state: PlayerState,
        out: Seq<Outgoing>,
    ) -> bool {
        &&& after.same_game(self)
        &&& after.player_side(0) == self.player_side(0)
        &&& after.player_side(1) == self.player_side(1)
        &&& after.player_state(i) == state
        &&& after.player_state(1 - i) == self.player_state(1 - i)
        &&& out == seq![Outgoing::ToUI(GameManagerToUI::PlayerStateChanged(i as usize, state))]
    }

    /// What a token of the player `i` on the pole `p` does. Where the manager
    /// accepts it, the token settles, the display and the other player are
    /// told, and the game is won or the turn passes. Where it does not (no game
    /// state yet, no side, not the turn of this player, a winner already, a full
    /// pole), nothing changes and the current game state is announced again.
    pub open spec fn put_token_step(
        &self,
        after: &GameManager,
        i: int,
        p: PoleCoords,
        out: Seq<Outgoing>,
    ) -> bool {
        &&& after.same_players(self)
        &&& if self.accepts_put(i, p) {
            let side = self.player_side(i)->0;
            let y = landing_height(self.board(), p);
            let gs = state_after_put(after.board(), side);
            &&& is_landing(self.board(), p, y)
            &&& after.board() == with_token(self.board(), side, p, y)
            &&& after.game_state() == Some(gs)
            &&& out == put_announcement(side, p, y, 1 - i, after.win_row()) + state_broadcast(gs)
        } else {
            &&& after.same_game(self)
            &&& out == resync(self.game_state())
        }
    }

    /// Creates a new manager: an empty board, no game state yet, and two
    /// players without a side whose state is not known.
    pub fn new() -> (r: GameManager)
        ensures
            r.wf(),
            r.board() == empty_board(),
            r.win_row() is None,
            r.game_state() is None,
            r.player_side(0) is None,
            r.player_side(1) is None,
            r.player_state(0) matches PlayerState::NotReady(t) && t@ == "unknown"@,
            r.player_state(1) matches PlayerState::NotReady(t) && t@ == "unknown"@,
    {
        let p0 = PlayerCtx { state: PlayerState::NotReady("unknown".to_owned()), side: None };
        let p1 = PlayerCtx { state: PlayerState::NotReady("unknown".to_owned()), side: None };
        GameManager { game: Game::new(), game_state: None, players: [p0, p1] }
    }

    /// The game as it stands.
    pub fn get_game(&self) -> (r: &Game)
        ensures
            r@ == self.board(),
            r.win_row() == self.win_row(),
            self.wf() ==> r.wf(),
    {
        &self.game
    }

    /// The game state; none before the primary player has set one.
    pub fn get_game_state(&self) -> (r: Option<GameState>)
        ensures
            r == self.game_state(),
    {
        self.game_state
    }

    /// The side of the player `i`, 0 or 1, if it has one yet.
    pub fn get_player_side(&self, i: usize) -> (r: Option<Side>)
        requires
            i < 2,
        ensures
            r == self.player_side(i as int),
    {
        self.players[i].side
    }

    /// Whether it is the turn of the player `i`, 0 or 1. Only then does the
    /// manager look at the pole of a token from this player.
    pub fn expects_token_from(&self, i: usize) -> (r: bool)
        requires
            i < 2,
        ensures
            r == self.is_turn_of(i as int),
    {
        match (self.game_state, self.players[i].side) {
            (Some(GameState::WaitingFor(s)), Some(side)) => s == side,
            _ => false,
        }
    }

    /// The current game state, for both players and the display.
    fn propagate_game_state_change(&self) -> (r: Vec<Outgoing>)
        ensures
            r@ == resync(self.game_state()),
    {
        let mut out: Vec<Outgoing> = Vec::new();
        if let Some(gs) = self.game_state {
            out.push(Outgoing::ToPlayer(0, GameManagerToPlayer::GameStateChanged(gs)));
            out.push(Outgoing::ToPlayer(1, GameManagerToPlayer::GameStateChanged(gs)));
            out.push(Outgoing::ToUI(GameManagerToUI::GameStateChanged(gs)));
            assert(out@ =~= state_broadcast(gs));
        }
        out
    }

    /// Remembers the new state of the player `i` and tells the display.
    fn handle_player_state_change(&mut self, i: usize, state: PlayerState) -> (r: Vec<Outgoing>)
        requires
            i < 2,
            old(self).wf(),
        ensures
            final(self).wf(),
            old(self).state_change_step(final(self), i as int, state, r@),
    {
        self.players[i].state = state.clone();
        let mut out: Vec<Outgoing> = Vec::new();
        out.push(Outgoing::ToUI(GameManagerToUI::PlayerStateChanged(i, state)));
        assert(out@ =~= seq![Outgoing::ToUI(GameManagerToUI::PlayerStateChanged(i, state))]);
        out
    }

    /// Handles a full game reset: it comes when a network player has been given
    /// the game state by the server, or when a local primary player starts a
    /// game. The manager adopts it and tells the other player and the display.
    fn handle_full_game_state(&mut self, i: usize, fgstate: FullGameState) -> (r: Vec<Outgoing>)
        requires
            i < 2,
            old(self).wf(),
        ensures
            final(self).wf(),
            old(self).full_state_step(final(self), i as int, fgstate, r@),
    {
        let mut out: Vec<Outgoing> = Vec::new();
        if i != 0 {
            // Only the primary player may reset the game.
            return out;
        }
        // Update board state.
        self.game.reset_board(&fgstate.board);

        // Remember the side of the player which sent us the update.
        self.players[0].side = Some(fgstate.primary_player_side);

        // Update it for the opponent as well.
        let opposite_side = fgstate.primary_player_side.opposite();
        let opponent_idx = Self::opponent_idx(0);
        self.players[opponent_idx].side = Some(opposite_side);

        // Reset the game for the opponent.
        out.push(
            Outgoing::ToPlayer(
                opponent_idx,
                GameManagerToPlayer::Reset(fgstate.board.clone(), opposite_side),
            ),
        );

        // Update the display: the board, then the sides.
        let game_state = fgstate.game_state;
        let primary_side = fgstate.primary_player_side;
        out.push(Outgoing::ToUI(GameManagerToUI::ResetBoard(fgstate.board)));
        out.push(Outgoing::ToUI(GameManagerToUI::PlayerSidesChanged(primary_side, opposite_side)));

        // Update game state and propagate it to everyone.
        self.game_state = Some(game_state);
        let mut announce = self.propagate_game_state_change();
        out.append(&mut announce);
        assert(out@ =~= reset_announcement(fgstate));
        out
    }

    /// The index of the other player.
    fn opponent_idx(i: usize) -> (r: usize)
        requires
            i < 2,
        ensures
            r == 1 - i,
    {
        match i {
            0 => 1,
            _ => 0,
        }
    }

    /// The index of the player who has the given side, once the players have sides.
    fn player_by_side(&self, side: Side) -> (r: Option<usize>)
        ensures
            match self.player_side(0) {
                Some(v) => r == Some(if side == v { 0usize } else { 1usize }),
                None => r is None,
            },
    {
        match self.players[0].side {
            Some(v) => {
                if side == v {
                    return Some(0);
                }
                Some(1)
            },
            None => None,
        }
    }

    /// Handles one message `msg` from the player `i`, 0 or 1, and returns the
    /// messages to send, in order.
    pub fn handle_player_msg(&mut self, i: usize, msg: PlayerToGameManager) -> (r: Vec<Outgoing>)
        requires
            i < 2,
            old(self).wf(),
            msg matches PlayerToGameManager::PutToken(p) ==> p.in_bounds() || !old(self).is_turn_of(
                i as int,
            ),
        ensures
            final(self).wf(),
            match msg {
                PlayerToGameManager::SetFullGameState(f) => old(self).full_state_step(
                    final(self),
                    i as int,
                    f,
                    r@,
                ),
                PlayerToGameManager::StateChanged(state) => old(self).state_change_step(
                    final(self),
                    i as int,
                    state,
                    r@,
                ),
                PlayerToGameManager::PutToken(p) => old(self).put_token_step(
                    final(self),
                    i as int,
                    p,
                    r@,
                ),
            },
    {
        match msg {
            PlayerToGameManager::SetFullGameState(fgstate) => self.handle_full_game_state(
                i,
                fgstate,
            ),
            PlayerToGameManager::StateChanged(state) => self.handle_player_state_change(i, state),
            PlayerToGameManager::PutToken(pcoords) => self.handle_player_put_token(i, pcoords),
        }
    }

    /// Called when the player `i`, 0 or 1, puts a token on a pole. The pole
    /// stands on the board if it is the turn of this player; the pole of a
    /// token out of turn is not looked at.
    ///
    /// A token that cannot be taken is no failure: in a network game a late or
    /// repeated message is to be expected. Nothing changes then, and everyone
    /// is told the current game state again.
    pub fn handle_player_put_token(&mut self, i: usize, pcoords: PoleCoords) -> (r: Vec<Outgoing>)
        requires
            i < 2,
            old(self).wf(),
            pcoords.in_bounds() || !old(self).is_turn_of(i as int),
        ensures
            final(self).wf(),
            old(self).put_token_step(final(self), i as int, pcoords, r@),
    {
        let maybe_side = self.players[i].side;

        let expected_move_side = match self.game_state {
            Some(GameState::WaitingFor(s)) => s,
            _ => {
                // No game yet, or the game is won, but the player put a token.
                return self.propagate_game_state_change();
            },
        };
        let side = match maybe_side {
            None => {
                return self.propagate_game_state_change();
            },
            Some(s) => s,
        };
        if side != expected_move_side {
            return self.propagate_game_state_change();
        }
        // The side matches, try to actually put the token. This can still fail
        // if the pole is full; the player is then simply asked for a move again.

        let res = match self.game.put_token(side, pcoords) {
            Ok(res) => res,
            Err(_) => {
                return self.propagate_game_state_change();
            },
        };

        // All good, add the new token to the display.
        let mut out: Vec<Outgoing> = Vec::new();
        out.push(
            Outgoing::ToUI(
                GameManagerToUI::SetToken(
                    side,
                    TokenCoords { x: pcoords.x, y: res.y, z: pcoords.z },
                ),
            ),
        );

        // Let the other player know.
        let opposite_side = side.opposite();
        let other = match self.player_by_side(opposite_side) {
            Some(other) => other,
            None => Self::opponent_idx(i),
        };
        out.push(Outgoing::ToPlayer(other, GameManagerToPlayer::OpponentPutToken(pcoords)));

        // Update game state, depending on whether the new token won the game.
        match self.game.get_win_row() {
            Some(win_row) => {
                self.game_state = Some(GameState::WonBy(side));
                // Also let the display know the full winning row.
                out.push(Outgoing::ToUI(GameManagerToUI::WinRow(*win_row)));
            },
            None => {
                self.game_state = Some(GameState::WaitingFor(opposite_side));
            },
        }
        assert(out@ =~= put_announcement(
            side,
            pcoords,
            res.y as int,
            1 - i,
            self.win_row(),
        ));

        // Let everyone know about the current game state.
        let mut announce = self.propagate_game_state_change();
        out.append(&mut announce);
        out
    }
}

} // verus!
