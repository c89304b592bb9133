//! The course of a game: how the board and the game state move from one
//! placement to the next, and what holds of every game played by the rules.

use crate::game::{landing_height, lemma_scan, no_win, pole_full, with_token, PoleCoords, Side};
use crate::game_manager::{
    resync, state_after_put, state_broadcast, GameManager, GameState, Outgoing,
};
use vstd::prelude::*;

verus! {

/// A game in play: the cells of the board and the game state.
pub struct Play {
    pub board: Seq<Option<Side>>,
    pub state: GameState,
}

/// The side that moves after `n` placements, where `first` moved first.
pub open spec fn turn(first: Side, n: nat) -> Side {
    if n % 2 == 0 {
        first
    } else {
        first.spec_opposite()
    }
}

impl Play {
    /// A token of `side` on the pole `p` is taken: it is the turn of `side`,
    /// nobody holds a complete line, and the pole has an empty cell.
    pub open spec fn accepts(self, side: Side, p: PoleCoords) -> bool {
        &&& self.state == GameState::WaitingFor(side)
        &&& no_win(self.board)
        &&& !pole_full(self.board, p)
    }

    /// The game after `side` has tried to put a token on the pole `p`. A token
    /// that is taken settles, and the game is won or the turn passes; one that
    /// is not taken changes nothing.
    pub open spec fn put(self, side: Side, p: PoleCoords) -> Play {
        if self.accepts(side, p) {
            let b = with_token(self.board, side, p, landing_height(self.board, p));
            Play { board: b, state: state_after_put(b, side) }
        } else {
            self
        }
    }

    /// The game after the given placements, each made by the side whose turn it
    /// is. Once the game is won, nobody moves.
    pub open spec fn play_on(self, moves: Seq<PoleCoords>) -> Play
        decreases moves.len(),
    {
        if moves.len() == 0 {
            self
        } else {
            let before = self.play_on(moves.drop_last());
            match before.state {
                GameState::WaitingFor(s) => before.put(s, moves.last()),
                GameState::WonBy(_) => before,
            }
        }
    }

    /// Each of the given placements is taken when it is made, as long as the
    /// game is not won.
    pub open spec fn all_taken(self, moves: Seq<PoleCoords>) -> bool
        decreases moves.len(),
    {
        if moves.len() == 0 {
            true
        } else {
            let before = self.play_on(moves.drop_last());
            &&& self.all_taken(moves.drop_last())
            &&& before.state matches GameState::WaitingFor(s) ==> before.accepts(s, moves.last())
        }
    }
}

/// Through any sequence of placements that are all taken, the turn alternates
/// between the two sides, starting with the side that the game waits for, until
/// the game is won.
pub proof fn lemma_turns_alternate(start: Play, first: Side, moves: Seq<PoleCoords>)
    requires
        start.state == GameState::WaitingFor(first),
        start.all_taken(moves),
    ensures
        start.play_on(moves).state is WonBy || start.play_on(moves).state == GameState::WaitingFor(
            turn(first, moves.len()),
        ),
    decreases moves.len(),
{
    if moves.len() > 0 {
        lemma_turns_alternate(start, first, moves.drop_last());
    }
}

/// A won game stays won by the same side, with the same board, whatever
/// placements follow.
pub proof fn lemma_win_is_final(start: Play, moves: Seq<PoleCoords>)
    requires
        start.state is WonBy,
    ensures
        start.play_on(moves) == start,
    decreases moves.len(),
{
    if moves.len() > 0 {
        lemma_win_is_final(start, moves.drop_last());
    }
}

/// The game state never goes back: once the game is won after some of the
/// placements, it is won by the same side after all of them.
pub proof fn lemma_no_regress(start: Play, moves: Seq<PoleCoords>, n: int)
    requires
        0 <= n <= moves.len(),
        start.play_on(moves.take(n)).state is WonBy,
    ensures
        start.play_on(moves) == start.play_on(moves.take(n)),
    decreases moves.len(),
{
    if n == moves.len() {
        assert(moves.take(n) =~= moves);
    } else {
        assert(moves.drop_last().take(n) =~= moves.take(n));
        lemma_no_regress(start, moves.drop_last(), n);
    }
}

impl GameManager {
    /// The game that the manager coordinates, once there is a game state.
    pub open spec fn play(&self) -> Play {
        Play { board: self.board(), state: self.game_state()->0 }
    }
}

/// A token from the player `i` moves the manager's game as `Play::put` says,
/// for the side of that player.
pub proof fn lemma_put_token_step_is_put(
    before: GameManager,
    after: GameManager,
    i: int,
    p: PoleCoords,
    out: Seq<Outgoing>,
)
    requires
        before.wf(),
        before.put_token_step(&after, i, p, out),
        before.game_state() is Some,
        before.player_side(i) is Some,
    ensures
        after.game_state() is Some,
        after.play() == before.play().put(before.player_side(i)->0, p),
{
    lemma_scan(before.board(), before.win_row());
}

/// A token on a full pole changes neither the board nor the game state, and
/// all that the manager does is to announce the game state again.
pub proof fn lemma_full_pole_changes_nothing(
    before: GameManager,
    after: GameManager,
    i: int,
    p: PoleCoords,
    out: Seq<Outgoing>,
)
    requires
        before.put_token_step(&after, i, p, out),
        pole_full(before.board(), p),
    ensures
        after.same_game(&before),
        after.same_players(&before),
        out == resync(before.game_state()),
{
}

/// A token from the player whose turn it is not changes neither the board nor
/// the game state, and both players and the display are told the unchanged game
/// state again.
pub proof fn lemma_out_of_turn_changes_nothing(
    before: GameManager,
    after: GameManager,
    i: int,
    p: PoleCoords,
    out: Seq<Outgoing>,
    waiting_for: Side,
)
    requires
        before.put_token_step(&after, i, p, out),
        before.game_state() == Some(GameState::WaitingFor(waiting_for)),
        before.player_side(i) != Some(waiting_for),
    ensures
        after.same_game(&before),
        after.same_players(&before),
        out == state_broadcast(GameState::WaitingFor(waiting_for)),
{
}

} // verus!
