//! What the display knows and decides, apart from drawing.
//!
//! The display remembers what the manager and the players tell it, decides
//! which tokens to show and to flash, when a click picks a pole, and which
//! texts to write. Drawing, the camera and the clock are not its business: it
//! returns the changes to make to the scene.

use crate::game::{cell_at, Side, TokenCoords, WinRow, BOARD_CELLS, ROW_SIZE};
use crate::game_manager::player_local::PlayerLocalToUI;
use crate::game_manager::{GameManagerToUI, GameState, PlayerState};
use vstd::prelude::*;
use vstd::string::StringExecFns;

verus! {

/// How many times to flash the last token.
pub const LAST_TOKEN_NUM_FLASHES: usize = 2;

/// How often flashing tokens change between shown and hidden, in milliseconds.
pub const FLASH_DUR_MS: u64 = 200;

/// Kind of the opponent: local or network.
#[derive(Debug, Copy, Clone, PartialEq, Eq, Structural)]
pub enum OpponentKind {
    Local,
    Network,
}

/// A change that the display wants made to the scene.
#[derive(Debug, Copy, Clone, PartialEq, Eq, Structural)]
pub enum SceneChange {
    /// Remove all tokens.
    ClearTokens,
    /// Add a token of the given side at the given cell.
    AddToken(Side, TokenCoords),
    /// Show or hide the token at the given cell.
    SetTokenVisible(TokenCoords, bool),
    /// Give the pointer over the poles the colour of the given side.
    SetPointerSide(Side),
    /// Count the time to the next flash from now on.
    RestartFlashTimer,
    /// Count the time to the next flash as if one period had passed already.
    RewindFlashTimer,
}

/// The line about the state of the game that the display writes.
#[derive(Debug, Copy, Clone, PartialEq, Eq, Structural)]
pub enum StatusLine {
    NotStarted,
    YourTurn,
    OpponentsTurn,
    /// In a local game, the player 1 or 2 has won.
    PlayerWon(usize),
    YouWon,
    YouLost,
}

/// What the display knows of a single player.
pub struct PlayerInfo {
    /// Name to show on the screen.
    name: String,
    state: PlayerState,
    side: Option<Side>,
}

/// The state of the display.
pub struct DisplayState {
    players: [PlayerInfo; 2],
    opponent_kind: OpponentKind,
    game_state: Option<GameState>,
    /// The winning row, whose tokens flash.
    win_row: Option<WinRow>,
    /// Last token that was added, if any. It flashes a few times.
    last_token: Option<TokenCoords>,
    /// How many flashes are left for the last token.
    last_token_num_flash: usize,
    /// Whether flashing tokens are currently shown.
    flash_show: bool,
    /// The side of the local player who waits for the user to pick a pole.
    pending_input: Option<Side>,
    /// Whether a mouse button (any of them) is down.
    mouse_down: bool,
    /// Whether the scene is being rotated or moved with the mouse. A release
    /// of the button then picks no pole.
    rotating: bool,
}

/// The name of the player `i` on the screen, by the kind of the opponent.
pub open spec fn player_name(kind: OpponentKind, i: int) -> Seq<char> {
    match kind {
        OpponentKind::Local => "local"@,
        OpponentKind::Network => if i == 0 {
            "network"@
        } else {
            "local (you)"@
        },
    }
}

/// The name of a side on the screen.
pub open spec fn side_name(side: Side) -> Seq<char> {
    match side {
        Side::Black => "Black"@,
        Side::White => "White"@,
    }
}

/// The cell number `n` in the order in which the display goes through the
/// board: x first, then y, then z.
pub open spec fn nth_cell(n: int) -> TokenCoords {
    TokenCoords { x: (n / 16) as usize, y: ((n / 4) % 4) as usize, z: (n % 4) as usize }
}

/// The tokens to add for the first `n` cells of the board `b`, in the order of
/// the cells.
pub open spec fn tokens_to_add(b: Seq<Option<Side>>, n: int) -> Seq<SceneChange>
    decreases n,
{
    if n <= 0 {
        Seq::empty()
    } else {
        let before = tokens_to_add(b, n - 1);
        match cell_at(b, nth_cell(n - 1)) {
            Some(side) => before.push(SceneChange::AddToken(side, nth_cell(n - 1))),
            None => before,
        }
    }
}

/// The text of a player's line: its number and name, its side if it has one,
/// its state, and a note if the display waits for its move.
pub open spec fn player_text(
    i: int,
    name: Seq<char>,
    side: Option<Side>,
    state: PlayerState,
    pending_input: Option<Side>,
) -> Seq<char> {
    (if i == 0 {
        "player #1, "@
    } else {
        "player #2, "@
    }) + name + (match side {
        Some(s) => " ("@ + side_name(s) + ")"@,
        None => Seq::empty(),
    }) + (match state {
        PlayerState::NotReady(v) => ": "@ + v@,
        PlayerState::Ready => ": ready"@,
    }) + (if pending_input is Some && pending_input == side {
        ": your turn"@
    } else {
        Seq::empty()
    })
}

/// The changes that show or hide the tokens of the given row, in order.
pub open spec fn row_visibility(row: Seq<TokenCoords>, show: bool) -> Seq<SceneChange> {
    Seq::new(row.len(), |n: int| SceneChange::SetTokenVisible(row[n], show))
}

impl OpponentKind {
    /// The kind of opponent that the given word names: "local", "network", or
    /// nothing at all for a local one.
    pub fn parse(s: &str) -> (r: Option<OpponentKind>)
        ensures
            r == if s@ == ""@ || s@ == "local"@ {
                Some(OpponentKind::Local)
            } else if s@ == "network"@ {
                Some(OpponentKind::Network)
            } else {
                None
            },
    {
        let word = s.to_owned();
        if word == "".to_owned() || word == "local".to_owned() {
            Some(OpponentKind::Local)
        } else if word == "network".to_owned() {
            Some(OpponentKind::Network)
        } else {
            None
        }
    }

    /// The word for this kind of opponent.
    pub fn name(&self) -> (r: &'static str)
        ensures
            r@ == match *self {
                OpponentKind::Local => "local"@,
                OpponentKind::Network => "network"@,
            },
    {
        match self {
            OpponentKind::Local => "local",
            OpponentKind::Network => "network",
        }
    }
}

impl StatusLine {
    /// The text of the line.
    pub fn text(&self) -> (r: &'static str)
        ensures
            r@ == match *self {
                StatusLine::NotStarted => "The game did not start yet"@,
                StatusLine::YourTurn => "Your turn"@,
                StatusLine::OpponentsTurn => "Opponent's turn"@,
                StatusLine::PlayerWon(n) => if n == 1 {
                    "player #1 won"@
                } else {
                    "player #2 won"@
                },
                StatusLine::YouWon => "you won!"@,
                StatusLine::YouLost => "you lost!"@,
            },
    {
        match self {
            StatusLine::NotStarted => "The game did not start yet",
            StatusLine::YourTurn => "Your turn",
            StatusLine::OpponentsTurn => "Opponent's turn",
            StatusLine::PlayerWon(n) => if *n == 1 {
                "player #1 won"
            } else {
                "player #2 won"
            },
            StatusLine::YouWon => "you won!",
            StatusLine::YouLost => "you lost!",
        }
    }
}

impl DisplayState {
    pub closed spec fn opponent_kind(&self) -> OpponentKind {
        self.opponent_kind
    }

    /// The name of the player `i` on the screen.
    pub closed spec fn name_of(&self, i: int) -> Seq<char> {
        self.players@[i].name@
    }

    /// The last state that the display was told of the player `i`.
    pub closed spec fn player_state(&self, i: int) -> PlayerState {
        self.players@[i].state
    }

    /// The side of the player `i`, as far as the display was told.
    pub closed spec fn player_side(&self, i: int) -> Option<Side> {
        self.players@[i].side
    }

    pub closed spec fn game_state(&self) -> Option<GameState> {
        self.game_state
    }

    pub closed spec fn win_row(&self) -> Option<WinRow> {
        self.win_row
    }

    pub closed spec fn last_token(&self) -> Option<TokenCoords> {
        self.last_token
    }

    /// How many flashes are left for the last token.
    pub closed spec fn flashes_left(&self) -> nat {
        self.last_token_num_flash as nat
    }

    /// Whether flashing tokens are currently shown.
    pub closed spec fn flash_show(&self) -> bool {
        self.flash_show
    }

    /// The side of the local player who waits for the user to pick a pole.
    pub closed spec fn pending_input(&self) -> Option<Side> {
        self.pending_input
    }

    pub closed spec fn mouse_down(&self) -> bool {
        self.mouse_down
    }

    pub closed spec fn rotating(&self) -> bool {
        self.rotating
    }

    /// What the display knows of the players is what `before` knew.
    pub open spec fn same_players(&self, before: &DisplayState) -> bool {
        &&& self.opponent_kind() == before.opponent_kind()
        &&& forall|i: int|
            0 <= i < 2 ==> {
                &&& #[trigger] self.name_of(i) == before.name_of(i)
                &&& self.player_state(i) == before.player_state(i)
                &&& self.player_side(i) == before.player_side(i)
            }
    }

    /// What the display knows of the game is what `before` knew.
    pub open spec fn same_game(&self, before: &DisplayState) -> bool {
        &&& self.game_state() == before.game_state()
        &&& self.win_row() == before.win_row()
    }

    /// The last token and its flashing are as in `before`.
    pub open spec fn same_flashing(&self, before: &DisplayState) -> bool {
        &&& self.last_token() == before.last_token()
        &&& self.flashes_left() == before.flashes_left()
        &&& self.flash_show() == before.flash_show()
    }

    /// The pending input and the mouse are as in `before`.
    pub open spec fn same_input(&self, before: &DisplayState) -> bool {
        &&& self.pending_input() == before.pending_input()
        &&& self.mouse_down() == before.mouse_down()
        &&& self.rotating() == before.rotating()
    }

    /// The cells of the winning row lie on the board.
    pub open spec fn wf(&self) -> bool {
        self.win_row() matches Some(w) ==> forall|n: int|
            0 <= n < ROW_SIZE ==> (#[trigger] w.row@[n]).in_bounds()
    }

    /// The display of a game against the given kind of opponent, before
    /// anything is known of the game.
    pub fn new(opponent_kind: OpponentKind) -> (r: DisplayState)
        ensures
            r.wf(),
            r.opponent_kind() == opponent_kind,
            r.name_of(0) == player_name(opponent_kind, 0),
            r.name_of(1) == player_name(opponent_kind, 1),
            forall|i: int|
                0 <= i < 2 ==> {
                    &&& #[trigger] r.player_side(i) is None
                    &&& r.player_state(i) matches PlayerState::NotReady(t)
                    &&& t@ == "-"@
                },
            r.game_state() is None,
            r.win_row() is None,
            r.last_token() is None,
            r.flashes_left() == 0,
            r.flash_show(),
            r.pending_input() is None,
            !r.mouse_down(),
            !r.rotating(),
    {
        let (p0_name, p1_name) = match opponent_kind {
            OpponentKind::Local => ("local", "local"),
            OpponentKind::Network => ("network", "local (you)"),
        };
        DisplayState {
            players: [
                PlayerInfo {
                    name: p0_name.to_owned(),
                    state: PlayerState::NotReady("-".to_owned()),
                    side: None,
                },
                PlayerInfo {
                    name: p1_name.to_owned(),
                    state: PlayerState::NotReady("-".to_owned()),
                    side: None,
                },
            ],
            opponent_kind,
            game_state: None,
            win_row: None,
            last_token: None,
            last_token_num_flash: 0,
            flash_show: true,
            pending_input: None,
            mouse_down: false,
            rotating: false,
        }
    }

    /// What a message `msg` of the manager does to the display `self`, giving
    /// `after` and the changes `out` to the scene.
    pub open spec fn manager_msg_step(
        &self,
        after: &DisplayState,
        msg: GameManagerToUI,
        out: Seq<SceneChange>,
    ) -> bool {
        &&& after.same_input(self)
        &&& match msg {
            GameManagerToUI::SetToken(side, tcoords) => {
                &&& after.same_players(self)
                &&& after.same_game(self)
                &&& after.last_token() == Some(tcoords)
                &&& after.flashes_left() == LAST_TOKEN_NUM_FLASHES
                &&& after.flash_show()
                &&& out == seq![
                    SceneChange::AddToken(side, tcoords),
                    SceneChange::RestartFlashTimer,
                ]
            },
            GameManagerToUI::ResetBoard(board) => {
                &&& after.same_players(self)
                &&& after.game_state() == self.game_state()
                &&& after.win_row() is None
                &&& after.last_token() is None
                &&& after.flashes_left() == self.flashes_left()
                &&& after.flash_show() == self.flash_show()
                &&& out == seq![SceneChange::ClearTokens] + tokens_to_add(
                    board@,
                    BOARD_CELLS as int,
                )
            },
            GameManagerToUI::PlayerStateChanged(i, state) => {
                &&& after.same_game(self)
                &&& after.same_flashing(self)
                &&& after.opponent_kind() == self.opponent_kind()
                &&& after.name_of(0) == self.name_of(0)
                &&& after.name_of(1) == self.name_of(1)
                &&& after.player_side(0) == self.player_side(0)
                &&& after.player_side(1) == self.player_side(1)
                &&& after.player_state(i as int) == state
                &&& after.player_state(1 - i) == self.player_state(1 - i)
                &&& out.len() == 0
            },
            GameManagerToUI::PlayerSidesChanged(pri_side, sec_side) => {
                &&& after.same_game(self)
                &&& after.same_flashing(self)
                &&& after.opponent_kind() == self.opponent_kind()
                &&& after.name_of(0) == self.name_of(0)
                &&& after.name_of(1) == self.name_of(1)
                &&& after.player_state(0) == self.player_state(0)
                &&& after.player_state(1) == self.player_state(1)
                &&& after.player_side(0) == Some(pri_side)
                &&& after.player_side(1) == Some(sec_side)
                &&& out.len() == 0
            },
            GameManagerToUI::GameStateChanged(game_state) => {
                &&& after.same_players(self)
                &&& after.same_flashing(self)
                &&& after.game_state() == Some(game_state)
                &&& after.win_row() == self.win_row()
                &&& out.len() == 0
            },
            GameManagerToUI::WinRow(win_row) => {
                &&& after.same_players(self)
                &&& after.same_flashing(self)
                &&& after.game_state() == self.game_state()
                &&& after.win_row() == Some(win_row)
                &&& out.len() == 0
            },
        }
    }

    /// Handles a message of the manager and returns the changes to make to the
    /// scene, in order. The index of a player is 0 or 1, and the cells of a
    /// token and of a winning row lie on the board.
    pub fn handle_gm_message(&mut self, msg: GameManagerToUI) -> (r: Vec<SceneChange>)
        requires
            old(self).wf(),
            msg matches GameManagerToUI::PlayerStateChanged(i, _) ==> i < 2,
            msg matches GameManagerToUI::SetToken(_, c) ==> c.in_bounds(),
            msg matches GameManagerToUI::WinRow(w) ==> forall|n: int|
                0 <= n < ROW_SIZE ==> (#[trigger] w.row@[n]).in_bounds(),
        ensures
            final(self).wf(),
            old(self).manager_msg_step(final(self), msg, r@),
    {
        let mut out: Vec<SceneChange> = Vec::new();
        match msg {
            GameManagerToUI::SetToken(side, tcoords) => {
                out.push(SceneChange::AddToken(side, tcoords));
                let change = self.set_last_token(tcoords);
                out.push(change);
                assert(out@ =~= seq![
                    SceneChange::AddToken(side, tcoords),
                    SceneChange::RestartFlashTimer,
                ]);
            },
            GameManagerToUI::ResetBoard(board) => {
                out.push(SceneChange::ClearTokens);
                self.win_row = None;
                self.last_token = None;
                let ghost head = out@;
                let mut n: usize = 0;
                for x in 0..ROW_SIZE
                    invariant
                        n == 16 * x,
                        out@ == head + tokens_to_add(board@, n as int),
                {
                    for y in 0..ROW_SIZE
                        invariant
                            x < ROW_SIZE,
                            n == 16 * x + 4 * y,
                            out@ == head + tokens_to_add(board@, n as int),
                    {
                        for z in 0..ROW_SIZE
                            invariant
                                x < ROW_SIZE,
                                y < ROW_SIZE,
                                n == 16 * x + 4 * y + z,
                                out@ == head + tokens_to_add(board@, n as int),
                        {
                            let tcoords = TokenCoords::new(x, y, z);
                            assert(tcoords == nth_cell(n as int));
                            if let Some(side) = board.get(tcoords) {
                                out.push(SceneChange::AddToken(side, tcoords));
                            }
                            n += 1;
                            assert(out@ =~= head + tokens_to_add(board@, n as int));
                        }
                    }
                }
            },
            GameManagerToUI::PlayerStateChanged(i, state) => {
                self.players[i].state = state;
            },
            GameManagerToUI::PlayerSidesChanged(pri_side, sec_side) => {
                self.players[0].side = Some(pri_side);
                self.players[1].side = Some(sec_side);
            },
            GameManagerToUI::GameStateChanged(game_state) => {
                self.game_state = Some(game_state);
            },
            GameManagerToUI::WinRow(win_row) => {
                self.win_row = Some(win_row);
            },
        }
        out
    }

    /// Handles the request of a local player for input: the display waits for
    /// the user to pick a pole for the given side, and the pointer gets the
    /// colour of that side. No player of the other side is waiting already.
    pub fn handle_player_message(&mut self, msg: PlayerLocalToUI) -> (r: Vec<SceneChange>)
        requires
            old(self).wf(),
            msg matches PlayerLocalToUI::RequestInput(side) ==> old(self).pending_input() is None
                || old(self).pending_input() == Some(side),
        ensures
            final(self).wf(),
            final(self).same_players(old(self)),
            final(self).same_game(old(self)),
            final(self).same_flashing(old(self)),
            final(self).mouse_down() == old(self).mouse_down(),
            final(self).rotating() == old(self).rotating(),
            msg matches PlayerLocalToUI::RequestInput(side) && final(self).pending_input() == Some(
                side,
            ) && r@ == seq![SceneChange::SetPointerSide(side)],
    {
        let mut out: Vec<SceneChange> = Vec::new();
        match msg {
            PlayerLocalToUI::RequestInput(side) => {
                // Remember the side to pick a pole for.
                self.pending_input = Some(side);
                // Update the colour of the pole pointer to reflect the side.
                out.push(SceneChange::SetPointerSide(side));
            },
        }
        out
    }

    /// Remember which token was set last, and let it flash.
    fn set_last_token(&mut self, tcoords: TokenCoords) -> (r: SceneChange)
        requires
            old(self).wf(),
        ensures
            final(self).wf(),
            final(self).same_players(old(self)),
            final(self).same_game(old(self)),
            final(self).same_input(old(self)),
            final(self).last_token() == Some(tcoords),
            final(self).flashes_left() == LAST_TOKEN_NUM_FLASHES,
            final(self).flash_show(),
            r == SceneChange::RestartFlashTimer,
    {
        self.last_token = Some(tcoords);
        self.last_token_num_flash = LAST_TOKEN_NUM_FLASHES;
        self.flash_show = true;
        SceneChange::RestartFlashTimer
    }

    /// The user asks to see the last token again: it flashes anew, and is
    /// hidden right away.
    pub fn flash_last_token_again(&mut self) -> (r: Vec<SceneChange>)
        requires
            old(self).wf(),
        ensures
            final(self).wf(),
            final(self).same_players(old(self)),
            final(self).same_game(old(self)),
            final(self).same_input(old(self)),
            final(self).last_token() == old(self).last_token(),
            match old(self).last_token() {
                Some(_) => {
                    &&& final(self).flashes_left() == LAST_TOKEN_NUM_FLASHES
                    &&& final(self).flash_show()
                    &&& r@ == seq![SceneChange::RestartFlashTimer, SceneChange::RewindFlashTimer]
                },
                None => {
                    &&& final(self).same_flashing(old(self))
                    &&& r@.len() == 0
                },
            },
    {
        let mut out: Vec<SceneChange> = Vec::new();
        if let Some(last_token) = self.last_token {
            let change = self.set_last_token(last_token);
            out.push(change);
            out.push(SceneChange::RewindFlashTimer);
        }
        out
    }

    /// One flashing period is over: flashing tokens change between shown and
    /// hidden. The last token flashes while it has flashes left, and loses one
    /// each time it is shown. The tokens of the winning row flash for ever.
    pub fn flash(&mut self) -> (r: Vec<SceneChange>)
        requires
            old(self).wf(),
        ensures
            final(self).wf(),
            final(self).same_players(old(self)),
            final(self).same_game(old(self)),
            final(self).same_input(old(self)),
            final(self).last_token() == old(self).last_token(),
            final(self).flash_show() == !old(self).flash_show(),
            final(self).flashes_left() == if old(self).flashes_left() > 0 && old(
                self,
            ).last_token() is Some && final(self).flash_show() {
                (old(self).flashes_left() - 1) as nat
            } else {
                old(self).flashes_left()
            },
            r@ == (if old(self).flashes_left() > 0 && old(self).last_token() is Some {
                seq![
                    SceneChange::SetTokenVisible(
                        old(self).last_token()->0,
                        final(self).flash_show(),
                    ),
                ]
            } else {
                Seq::<SceneChange>::empty()
            }) + (match old(self).win_row() {
                Some(w) => row_visibility(w.row@, final(self).flash_show()),
                None => Seq::<SceneChange>::empty(),
            }),
    {
        let mut out: Vec<SceneChange> = Vec::new();
        self.flash_show = !self.flash_show;

        // Flash the last token, if needed.
        if self.last_token_num_flash > 0 {
            if let Some(last_token) = self.last_token {
                out.push(SceneChange::SetTokenVisible(last_token, self.flash_show));
                if self.flash_show {
                    self.last_token_num_flash -= 1;
                }
            }
        }
        // Flash the winning row, if any.

        if let Some(win_row) = &self.win_row {
            let ghost head = out@;
            let show = self.flash_show;
            for n in 0..ROW_SIZE
                invariant
                    out@ == head + row_visibility(win_row.row@, show).take(n as int),
            {
                out.push(SceneChange::SetTokenVisible(win_row.row[n], show));
                assert(out@ =~= head + row_visibility(win_row.row@, show).take(n + 1));
            }
            assert(row_visibility(win_row.row@, show).take(ROW_SIZE as int) =~= row_visibility(
                win_row.row@,
                show,
            ));
        }
        out
    }

    /// Whether the display waits for the user to pick a pole.
    pub fn waiting_for_input(&self) -> (r: bool)
        ensures
            r == self.pending_input() is Some,
    {
        if let Some(_) = self.pending_input {
            return true;
        }
        false
    }

    /// The side for which the display waits for a pole, if it does.
    pub fn pending_side(&self) -> (r: Option<Side>)
        ensures
            r == self.pending_input(),
    {
        self.pending_input
    }

    /// A mouse button was pressed.
    pub fn mouse_pressed(&mut self)
        ensures
            final(self).mouse_down(),
            final(self).rotating() == old(self).rotating(),
            final(self).pending_input() == old(self).pending_input(),
            final(self).same_players(old(self)),
            final(self).same_game(old(self)),
            final(self).same_flashing(old(self)),
    {
        self.mouse_down = true;
    }

    /// The mouse pointer has moved. While a button is down, this rotates or
    /// moves the scene.
    pub fn mouse_moved(&mut self)
        ensures
            final(self).mouse_down() == old(self).mouse_down(),
            final(self).rotating() == (old(self).rotating() || old(self).mouse_down()),
            final(self).pending_input() == old(self).pending_input(),
            final(self).same_players(old(self)),
            final(self).same_game(old(self)),
            final(self).same_flashing(old(self)),
    {
        if self.mouse_down {
            self.rotating = true;
        }
    }

    /// A mouse button was released. The result says whether this picks the
    /// pole under the pointer: it was the left button, the scene was not being
    /// rotated, and the display waits for input.
    pub fn mouse_released(&mut self, left_button: bool) -> (r: bool)
        ensures
            !final(self).mouse_down(),
            !final(self).rotating(),
            final(self).pending_input() == old(self).pending_input(),
            final(self).same_players(old(self)),
            final(self).same_game(old(self)),
            final(self).same_flashing(old(self)),
            r == (left_button && !old(self).rotating() && old(self).pending_input() is Some),
    {
        let was_rotating = self.rotating;
        self.mouse_down = false;
        self.rotating = false;
        // If it was not the left button, or if the scene was rotated, then no
        // token is added on release.
        if !left_button || was_rotating || !self.waiting_for_input() {
            return false;
        }
        true
    }

    /// The pole that the user picked has been handed to the player who waited
    /// for it: the display waits no more.
    pub fn input_taken(&mut self)
        ensures
            final(self).pending_input() is None,
            final(self).mouse_down() == old(self).mouse_down(),
            final(self).rotating() == old(self).rotating(),
            final(self).same_players(old(self)),
            final(self).same_game(old(self)),
            final(self).same_flashing(old(self)),
    {
        self.pending_input = None;
    }

    /// Whether the pointer over the poles is to be shown: the display waits
    /// for input, the scene is not being rotated, and the mouse is over a pole.
    pub fn pointer_visible(&self, over_pole: bool) -> (r: bool)
        ensures
            r == (!self.rotating() && self.pending_input() is Some && over_pole),
    {
        if self.rotating || !self.waiting_for_input() {
            return false;
        }
        over_pole
    }

    /// The winning row, whose tokens flash, if the game has one.
    pub fn get_win_row(&self) -> (r: Option<WinRow>)
        ensures
            r == self.win_row(),
    {
        self.win_row
    }

    /// The line about the state of the game, if there is one to write. In a
    /// local game nothing is written while the game goes on. In a network game
    /// "you" is the player 1.
    pub fn status_line(&self) -> (r: Option<StatusLine>)
        ensures
            r == match self.game_state() {
                None => Some(StatusLine::NotStarted),
                Some(GameState::WaitingFor(s)) => match self.opponent_kind() {
                    OpponentKind::Local => None,
                    OpponentKind::Network => if self.player_side(1) == Some(s) {
                        Some(StatusLine::YourTurn)
                    } else {
                        Some(StatusLine::OpponentsTurn)
                    },
                },
                Some(GameState::WonBy(w)) => match self.opponent_kind() {
                    OpponentKind::Local => if self.player_side(0) == Some(w) {
                        Some(StatusLine::PlayerWon(1))
                    } else {
                        Some(StatusLine::PlayerWon(2))
                    },
                    OpponentKind::Network => if self.player_side(1) == Some(w) {
                        Some(StatusLine::YouWon)
                    } else {
                        Some(StatusLine::YouLost)
                    },
                },
            },
    {
        match self.game_state {
            None => Some(StatusLine::NotStarted),
            Some(GameState::WaitingFor(waiting_for_side)) => {
                match self.opponent_kind {
                    OpponentKind::Local => None,
                    OpponentKind::Network => {
                        if side_is(self.players[1].side, waiting_for_side) {
                            Some(StatusLine::YourTurn)
                        } else {
                            Some(StatusLine::OpponentsTurn)
                        }
                    },
                }
            },
            Some(GameState::WonBy(winning_side)) => {
                match self.opponent_kind {
                    OpponentKind::Local => {
                        if side_is(self.players[0].side, winning_side) {
                            Some(StatusLine::PlayerWon(1))
                        } else {
                            Some(StatusLine::PlayerWon(2))
                        }
                    },
                    OpponentKind::Network => {
                        if side_is(self.players[1].side, winning_side) {
                            Some(StatusLine::YouWon)
                        } else {
                            Some(StatusLine::YouLost)
                        }
                    },
                }
            },
        }
    }

    /// Returns the line about the player `i`, 0 or 1, to show on the screen.
    pub fn player_str(&self, i: usize) -> (r: String)
        requires
            i < 2,
        ensures
            r@ == player_text(
                i as int,
                self.name_of(i as int),
                self.player_side(i as int),
                self.player_state(i as int),
                self.pending_input(),
            ),
    {
        let mut s = if i == 0 {
            "player #1, ".to_owned()
        } else {
            "player #2, ".to_owned()
        };
        s.append(self.players[i].name.as_str());
        if let Some(side) = self.players[i].side {
            s.append(" (");
            s.append(
                match side {
                    Side::Black => "Black",
                    Side::White => "White",
                },
            );
            s.append(")");
        }
        match &self.players[i].state {
            PlayerState::NotReady(v) => {
                s.append(": ");
                s.append(v.as_str());
            },
            PlayerState::Ready => {
                s.append(": ready");
            },
        }
        if let Some(pending) = self.pending_input {
            if side_is(self.players[i].side, pending) {
                s.append(": your turn");
            }
        }
        proof {
            let side = self.player_side(i as int);
            let state = self.player_state(i as int);
            assert(s@ =~= player_text(
                i as int,
                self.name_of(i as int),
                side,
                state,
                self.pending_input(),
            ));
        }
        s
    }
}

/// Whether `have` is the side `want`.
fn side_is(have: Option<Side>, want: Side) -> (r: bool)
    ensures
        r == (have == Some(want)),
{
    match have {
        Some(s) => s == want,
        None => false,
    }
}

} // verus!
