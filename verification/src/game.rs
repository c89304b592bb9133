//! The board, token placement and win detection.
//!
//! The board is a cube of `ROW_SIZE` cells along each edge. Tokens are dropped
//! onto vertical poles and settle in the lowest empty cell. A side wins as soon
//! as one of the straight lines through the cube is filled with its tokens.

use vstd::prelude::*;

verus! {

/// Number of cells along each edge of the board, and the length of a winning row.
pub const ROW_SIZE: usize = 4;

/// Number of cells on the whole board.
pub const BOARD_CELLS: usize = 64;

/// Number of straight lines of `ROW_SIZE` cells on the board.
pub const LINE_COUNT: usize = 76;

/// Side of a player.
#[derive(Clone, Copy, PartialEq, Eq, Structural, Hash, Debug)]
pub enum Side {
    Black,
    White,
}

/// Coordinates of a token. Each of them is below `ROW_SIZE` on a cell of the board.
#[derive(Clone, Copy, PartialEq, Eq, Structural, Debug)]
pub struct TokenCoords {
    pub x: usize,
    pub y: usize,
    pub z: usize,
}

/// Coordinates of a pole. Each of them is below `ROW_SIZE` on a pole of the board.
#[derive(Clone, Copy, PartialEq, Eq, Structural, Debug)]
pub struct PoleCoords {
    pub x: usize,
    pub z: usize,
}

/// Placement and sides of all tokens, as a flat list of `BOARD_CELLS` cells.
/// Nothing else is validated: a board may hold hanging tokens.
#[derive(Debug)]
pub struct BoardState {
    tokens: [Option<Side>; BOARD_CELLS],
}

/// Winning row.
#[derive(Clone, Copy, Debug)]
pub struct WinRow {
    /// Side of the winner.
    pub side: Side,
    /// Coordinates of all winning tokens.
    pub row: [TokenCoords; ROW_SIZE],
}

/// Successful result of putting a token on a pole.
#[derive(Clone, Copy, Debug)]
pub struct PutResult {
    /// The height at which the new token settled.
    pub y: usize,
    /// True if the new token won the game.
    pub won: bool,
}

/// Why a token could not be put.
#[derive(Clone, Copy, PartialEq, Eq, Structural, Debug)]
pub enum PutError {
    /// The game has a winner already, the given side.
    WinnerDecided(Side),
    /// Every cell of the pole is taken.
    PoleFull,
}

/// How one coordinate changes along a line.
#[derive(Clone, Copy, PartialEq, Eq, Structural, Debug)]
pub enum Axis {
    /// The coordinate stays at the given value.
    Fixed(usize),
    /// The coordinate runs from 0 up to `ROW_SIZE - 1`.
    Rising,
    /// The coordinate runs from `ROW_SIZE - 1` down to 0.
    Falling,
}

/// A straight line of `ROW_SIZE` cells, given by the course of each coordinate.
#[derive(Clone, Copy, PartialEq, Eq, Structural, Debug)]
pub struct Line {
    pub x: Axis,
    pub y: Axis,
    pub z: Axis,
}

/// Describes the state of the board and the winner, if any.
pub struct Game {
    board: BoardState,
    win_row: Option<WinRow>,
}

/// Position of the cell `(x, y, z)` in the flat list of cells.
pub open spec fn cell_index(x: int, y: int, z: int) -> int {
    x + y * 4 + z * 16
}

/// The board without any token.
pub open spec fn empty_board() -> Seq<Option<Side>> {
    Seq::new(BOARD_CELLS as nat, |i: int| None)
}

/// What the cell at `c` holds on the board `b`.
pub open spec fn cell_at(b: Seq<Option<Side>>, c: TokenCoords) -> Option<Side> {
    b[cell_index(c.x as int, c.y as int, c.z as int)]
}

/// The height `y` is where a token dropped on the pole `p` settles: the lowest empty cell.
pub open spec fn is_landing(b: Seq<Option<Side>>, p: PoleCoords, y: int) -> bool {
    &&& 0 <= y < ROW_SIZE
    &&& b[cell_index(p.x as int, y, p.z as int)] is None
    &&& forall|j: int| 0 <= j < y ==> (#[trigger] b[cell_index(p.x as int, j, p.z as int)]) is Some
}

/// The height at which a token dropped on the pole `p` settles, where the pole is not full.
pub open spec fn landing_height(b: Seq<Option<Side>>, p: PoleCoords) -> int {
    choose|y: int| is_landing(b, p, y)
}

/// A token settles at one height only.
pub proof fn lemma_landing_unique(b: Seq<Option<Side>>, p: PoleCoords, y: int)
    requires
        is_landing(b, p, y),
    ensures
        landing_height(b, p) == y,
        !pole_full(b, p),
{
    let h = landing_height(b, p);
    assert(is_landing(b, p, h));
    if h < y {
        assert(b[cell_index(p.x as int, h, p.z as int)] is Some);
    }
    if y < h {
        assert(b[cell_index(p.x as int, y, p.z as int)] is Some);
    }
}

/// Every cell of the pole `p` holds a token.
pub open spec fn pole_full(b: Seq<Option<Side>>, p: PoleCoords) -> bool {
    forall|j: int|
        0 <= j < ROW_SIZE ==> (#[trigger] b[cell_index(p.x as int, j, p.z as int)]) is Some
}

/// The board `b` with one more token of `side` in the cell `(p.x, y, p.z)`.
pub open spec fn with_token(b: Seq<Option<Side>>, side: Side, p: PoleCoords, y: int) -> Seq<
    Option<Side>,
> {
    b.update(cell_index(p.x as int, y, p.z as int), Some(side))
}

/// The line with `Rising` where `falling` is false, and `Falling` where it is true.
pub open spec fn slope(falling: bool) -> Axis {
    if falling {
        Axis::Falling
    } else {
        Axis::Rising
    }
}

/// The lines of the board in the order in which they are scanned for a winner:
/// vertical lines; horizontal lines along z; horizontal lines along x; the two
/// diagonals of each plane of constant x, of constant z, and of constant y; and
/// the four diagonals through the whole cube.
pub open spec fn scan_line(k: int) -> Line {
    if k < 16 {
        Line { x: Axis::Fixed((k / 4) as usize), y: Axis::Rising, z: Axis::Fixed((k % 4) as usize) }
    } else if k < 32 {
        Line {
            x: Axis::Fixed(((k - 16) / 4) as usize),
            y: Axis::Fixed(((k - 16) % 4) as usize),
            z: Axis::Rising,
        }
    } else if k < 48 {
        Line {
            x: Axis::Rising,
            y: Axis::Fixed(((k - 32) % 4) as usize),
            z: Axis::Fixed(((k - 32) / 4) as usize),
        }
    } else if k < 56 {
        Line { x: Axis::Fixed(((k - 48) / 2) as usize), y: slope(k % 2 == 1), z: Axis::Rising }
    } else if k < 64 {
        Line { x: Axis::Rising, y: slope(k % 2 == 1), z: Axis::Fixed(((k - 56) / 2) as usize) }
    } else if k < 72 {
        Line { x: Axis::Rising, y: Axis::Fixed(((k - 64) / 2) as usize), z: slope(k % 2 == 1) }
    } else {
        Line { x: Axis::Rising, y: slope(k % 2 == 1), z: slope(k >= 74) }
    }
}

/// The side that holds every cell of the line `l` on the board `b`, if there is one.
pub open spec fn line_owner(b: Seq<Option<Side>>, l: Line) -> Option<Side> {
    let first = cell_at(b, l.cell(0));
    if first is Some && (forall|n: int|
        0 <= n < ROW_SIZE ==> cell_at(b, #[trigger] l.cell(n)) == first) {
        first
    } else {
        None
    }
}

/// The line number `k` is the first in scanning order that one side holds entirely.
pub open spec fn is_first_win(b: Seq<Option<Side>>, k: int) -> bool {
    &&& 0 <= k < LINE_COUNT
    &&& line_owner(b, scan_line(k)) is Some
    &&& forall|j: int| 0 <= j < k ==> (#[trigger] line_owner(b, scan_line(j))) is None
}

/// No line of the board is held entirely by one side.
pub open spec fn no_win(b: Seq<Option<Side>>) -> bool {
    forall|k: int| 0 <= k < LINE_COUNT ==> (#[trigger] line_owner(b, scan_line(k))) is None
}

/// Some line of the board is held entirely by one side.
pub open spec fn has_full_line(b: Seq<Option<Side>>) -> bool {
    exists|k: int| 0 <= k < LINE_COUNT && (#[trigger] line_owner(b, scan_line(k))) is Some
}

/// The row `w` is the line `l` with its owner on the board `b`.
pub open spec fn is_row_of(b: Seq<Option<Side>>, l: Line, w: WinRow) -> bool {
    &&& line_owner(b, l) == Some(w.side)
    &&& w.row@ == l.cells()
}

/// `r` is what a scan of the board `b` for a winner gives: the first line in
/// scanning order that one side holds entirely, or nothing if there is none.
pub open spec fn is_scan_result(b: Seq<Option<Side>>, r: Option<WinRow>) -> bool {
    match r {
        Some(w) => exists|k: int| #[trigger] is_first_win(b, k) && is_row_of(b, scan_line(k), w),
        None => no_win(b),
    }
}

impl Side {
    /// The other side.
    pub open spec fn spec_opposite(&self) -> Side {
        match *self {
            Side::Black => Side::White,
            Side::White => Side::Black,
        }
    }

    /// Opposite side.
    #[verifier::when_used_as_spec(spec_opposite)]
    pub fn opposite(&self) -> (r: Side)
        ensures
            r == self.spec_opposite(),
    {
        match *self {
            Side::Black => Side::White,
            Side::White => Side::Black,
        }
    }
}

impl PoleCoords {
    /// The pole stands on the board.
    pub open spec fn in_bounds(&self) -> bool {
        self.x < ROW_SIZE && self.z < ROW_SIZE
    }

    pub fn new(x: usize, z: usize) -> (r: PoleCoords)
        ensures
            r == (PoleCoords { x, z }),
    {
        PoleCoords { x, z }
    }

    /// Whether the pole stands on the board.
    pub fn on_board(&self) -> (r: bool)
        ensures
            r == self.in_bounds(),
    {
        self.x < ROW_SIZE && self.z < ROW_SIZE
    }

    /// The cell of this pole at the height `y`.
    pub fn token_coords(&self, y: usize) -> (r: TokenCoords)
        ensures
            r == (TokenCoords { x: self.x, y, z: self.z }),
    {
        TokenCoords { x: self.x, y, z: self.z }
    }
}

impl TokenCoords {
    /// The cell lies on the board.
    pub open spec fn in_bounds(&self) -> bool {
        self.x < ROW_SIZE && self.y < ROW_SIZE && self.z < ROW_SIZE
    }

    pub fn new(x: usize, y: usize, z: usize) -> (r: TokenCoords)
        ensures
            r == (TokenCoords { x, y, z }),
    {
        TokenCoords { x, y, z }
    }

    /// Whether the cell lies on the board.
    pub fn on_board(&self) -> (r: bool)
        ensures
            r == self.in_bounds(),
    {
        self.x < ROW_SIZE && self.y < ROW_SIZE && self.z < ROW_SIZE
    }

    /// The pole that this cell belongs to.
    pub fn pole_coords(&self) -> (r: PoleCoords)
        ensures
            r == (PoleCoords { x: self.x, z: self.z }),
    {
        PoleCoords { x: self.x, z: self.z }
    }
}

impl Axis {
    /// A fixed coordinate lies on the board.
    pub open spec fn in_bounds(&self) -> bool {
        match *self {
            Axis::Fixed(c) => c < ROW_SIZE,
            _ => true,
        }
    }

    /// The coordinate at the step `n` of the line.
    pub open spec fn spec_at(&self, n: int) -> int {
        match *self {
            Axis::Fixed(c) => c as int,
            Axis::Rising => n,
            Axis::Falling => ROW_SIZE - 1 - n,
        }
    }

    /// The coordinate at the step `n` of the line.
    fn at(&self, n: usize) -> (r: usize)
        requires
            n < ROW_SIZE,
            self.in_bounds(),
        ensures
            r == self.spec_at(n as int),
            r < ROW_SIZE,
    {
        match *self {
            Axis::Fixed(c) => c,
            Axis::Rising => n,
            Axis::Falling => ROW_SIZE - 1 - n,
        }
    }
}

impl Line {
    /// Every cell of the line lies on the board.
    pub open spec fn in_bounds(&self) -> bool {
        self.x.in_bounds() && self.y.in_bounds() && self.z.in_bounds()
    }

    /// The cell at the step `n` of the line.
    pub open spec fn cell(&self, n: int) -> TokenCoords {
        TokenCoords {
            x: self.x.spec_at(n) as usize,
            y: self.y.spec_at(n) as usize,
            z: self.z.spec_at(n) as usize,
        }
    }

    /// The cells of the line, in order.
    pub open spec fn cells(&self) -> Seq<TokenCoords> {
        Seq::new(ROW_SIZE as nat, |n: int| self.cell(n))
    }

    /// The cell at the step `n` of the line.
    fn cell_coords(&self, n: usize) -> (r: TokenCoords)
        requires
            n < ROW_SIZE,
            self.in_bounds(),
        ensures
            r == self.cell(n as int),
            r.in_bounds(),
    {
        TokenCoords { x: self.x.at(n), y: self.y.at(n), z: self.z.at(n) }
    }
}

impl View for BoardState {
    type V = Seq<Option<Side>>;

    closed spec fn view(&self) -> Seq<Option<Side>> {
        self.tokens@
    }
}

impl BoardState {
    /// Create a new blank board.
    pub fn new() -> (r: BoardState)
        ensures
            r@ == empty_board(),
    {
        let r = BoardState { tokens: [None; BOARD_CELLS] };
        assert(r@ =~= empty_board());
        r
    }

    /// A board with the given cells, if there are `BOARD_CELLS` of them.
    pub fn from_tokens(tokens: &Vec<Option<Side>>) -> (r: Option<BoardState>)
        ensures
            tokens@.len() == BOARD_CELLS <==> r is Some,
            r matches Some(b) ==> b@ == tokens@,
    {
        if tokens.len() != BOARD_CELLS {
            return None;
        }
        let mut b = BoardState { tokens: [None; BOARD_CELLS] };
        let mut i: usize = 0;
        while i < BOARD_CELLS
            invariant
                i <= BOARD_CELLS,
                tokens@.len() == BOARD_CELLS,
                forall|j: int| 0 <= j < i ==> b.tokens@[j] == tokens@[j],
            decreases BOARD_CELLS - i,
        {
            b.tokens[i] = tokens[i];
            i += 1;
        }
        assert(b@ =~= tokens@);
        Some(b)
    }

    /// The cells of the board as a flat list.
    pub fn tokens(&self) -> (r: Vec<Option<Side>>)
        ensures
            r@ == self@,
    {
        let mut r: Vec<Option<Side>> = Vec::new();
        let mut i: usize = 0;
        while i < BOARD_CELLS
            invariant
                i <= BOARD_CELLS,
                r@.len() == i,
                forall|j: int| 0 <= j < i ==> r@[j] == self.tokens@[j],
            decreases BOARD_CELLS - i,
        {
            r.push(self.tokens[i]);
            i += 1;
        }
        assert(r@ =~= self@);
        r
    }

    /// Every board holds `BOARD_CELLS` cells.
    pub proof fn lemma_len(&self)
        ensures
            self@.len() == BOARD_CELLS,
    {
    }

    /// Get the token at the given coordinates, which lie on the board.
    pub fn get(&self, tcoords: TokenCoords) -> (r: Option<Side>)
        requires
            tcoords.in_bounds(),
        ensures
            r == cell_at(self@, tcoords),
    {
        self.tokens[Self::coord_to_idx(tcoords)]
    }

    /// Set a token of the given side at the given coordinates, which lie on the
    /// board. Nothing else is validated, so one can set a hanging token.
    pub fn set(&mut self, side: Side, tcoords: TokenCoords)
        requires
            tcoords.in_bounds(),
        ensures
            final(self)@ == old(self)@.update(
                cell_index(tcoords.x as int, tcoords.y as int, tcoords.z as int),
                Some(side),
            ),
    {
        let idx = Self::coord_to_idx(tcoords);
        self.tokens[idx] = Some(side);
    }

    /// Copy the cells of another board. Existing cells are discarded.
    pub fn copy_from(&mut self, another: &BoardState)
        ensures
            final(self)@ == another@,
    {
        self.tokens = another.tokens;
    }

    /// Convert token coordinates into the position in the flat list of cells.
    fn coord_to_idx(tcoords: TokenCoords) -> (r: usize)
        requires
            tcoords.in_bounds(),
        ensures
            r == cell_index(tcoords.x as int, tcoords.y as int, tcoords.z as int),
            r < BOARD_CELLS,
    {
        tcoords.x + tcoords.y * ROW_SIZE + tcoords.z * ROW_SIZE * ROW_SIZE
    }
}

impl Clone for BoardState {
    fn clone(&self) -> (r: BoardState)
        ensures
            r == *self,
    {
        BoardState { tokens: self.tokens }
    }
}

impl View for Game {
    type V = Seq<Option<Side>>;

    /// The cells of the board.
    open spec fn view(&self) -> Seq<Option<Side>> {
        self.board()@
    }
}

impl Game {
    /// The board of the game.
    pub closed spec fn board(&self) -> BoardState {
        self.board
    }

    /// The winning row that the game remembers from its last scan of the board.
    pub closed spec fn win_row(&self) -> Option<WinRow> {
        self.win_row
    }

    /// The side that has won, if any.
    pub open spec fn winner(&self) -> Option<Side> {
        match self.win_row() {
            Some(w) => Some(w.side),
            None => None,
        }
    }

    /// The remembered winning row is what a scan of the board gives.
    pub open spec fn wf(&self) -> bool {
        is_scan_result(self@, self.win_row())
    }

    /// Create a new game with an empty board.
    pub fn new() -> (r: Game)
        ensures
            r.wf(),
            r@ == empty_board(),
            r.win_row() is None,
    {
        let r = Game { board: BoardState::new(), win_row: None };
        proof {
            lemma_empty_board_no_win();
        }
        r
    }

    /// Put a new token on the given pole, which stands on the board. The token
    /// settles in the lowest empty cell of the pole, whose height is returned.
    ///
    /// An error is returned if someone has won the game already, or else if the
    /// pole is full; the game is then unchanged.
    pub fn put_token(&mut self, side: Side, pcoords: PoleCoords) -> (r: Result<PutResult, PutError>)
        requires
            old(self).wf(),
            pcoords.in_bounds(),
        ensures
            final(self).wf(),
            old(self).winner() matches Some(s) ==> r == Err::<PutResult, PutError>(
                PutError::WinnerDecided(s),
            ),
            old(self).winner() is None && pole_full(old(self)@, pcoords) ==> r == Err::<
                PutResult,
                PutError,
            >(PutError::PoleFull),
            old(self).winner() is None && !pole_full(old(self)@, pcoords) ==> r is Ok,
            r is Err ==> *final(self) == *old(self),
            r matches Ok(res) ==> {
                &&& is_landing(old(self)@, pcoords, res.y as int)
                &&& res.y == landing_height(old(self)@, pcoords)
                &&& final(self)@ == with_token(old(self)@, side, pcoords, res.y as int)
                &&& res.won == final(self).win_row() is Some
            },
    {
        // Make sure there is no winner yet.
        if let Some(win_row) = &self.win_row {
            return Err(PutError::WinnerDecided(win_row.side));
        }
        let mut y: usize = 0;
        while y < ROW_SIZE
            invariant
                y <= ROW_SIZE,
                pcoords.in_bounds(),
                *self == *old(self),
                self.win_row is None,
                forall|j: int|
                    0 <= j < y ==> (#[trigger] self@[cell_index(
                        pcoords.x as int,
                        j,
                        pcoords.z as int,
                    )]) is Some,
            decreases ROW_SIZE - y,
        {
            let tcoords = pcoords.token_coords(y);
            match self.board.get(tcoords) {
                None => {
                    proof {
                        lemma_landing_unique(self@, pcoords, y as int);
                    }
                    self.board.set(side, tcoords);
                    self.win_row = self.check_win();
                    return Ok(PutResult { y, won: !self.win_row.is_none() });
                },
                // Token already exists, try the next cell (if any).
                Some(_) => {},
            }
            y += 1;
        }
        // The pole is full.
        Err(PutError::PoleFull)
    }

    /// Get the token (if any) at the given coordinates, which lie on the board.
    pub fn get_token(&self, tcoords: TokenCoords) -> (r: Option<Side>)
        requires
            tcoords.in_bounds(),
        ensures
            r == cell_at(self@, tcoords),
    {
        self.board.get(tcoords)
    }

    /// Return the current board state.
    pub fn get_board(&self) -> (r: &BoardState)
        ensures
            *r == self.board(),
    {
        &self.board
    }

    /// Reset the board to the cells of the given one, and scan it for a winner.
    /// The given board is taken as it is: hanging tokens, several complete
    /// lines and unbalanced sides are all accepted.
    pub fn reset_board(&mut self, board: &BoardState)
        ensures
            final(self).wf(),
            final(self).board() == *board,
    {
        self.board.copy_from(board);
        proof {
            lemma_same_cells_same_board(self.board, *board);
        }
        self.win_row = self.check_win();
    }

    /// Returns the current winning row, if any. Once there is one, no more
    /// tokens can be put until `reset_board` is called.
    pub fn get_win_row(&self) -> (r: &Option<WinRow>)
        ensures
            *r == self.win_row(),
            self.wf() ==> (*r is Some <==> has_full_line(self@)),
    {
        proof {
            if self.wf() {
                lemma_win_iff_full_line(self@, self.win_row);
            }
        }
        &self.win_row
    }

    /// Checks all lines in scanning order and returns the first one that is full
    /// of tokens of the same side. There is such a line exactly where one of
    /// the lines of the board is held entirely by one side.
    pub fn check_win(&self) -> (r: Option<WinRow>)
        ensures
            is_scan_result(self@, r),
            r is Some <==> has_full_line(self@),
    {
        let ghost b = self@;

        // Vertical rows (constant x, z).
        for x in 0..ROW_SIZE
            invariant
                b == self@,
                forall|j: int| 0 <= j < 4 * x ==> (#[trigger] line_owner(b, scan_line(j))) is None,
        {
            for z in 0..ROW_SIZE
                invariant
                    b == self@,
                    x < ROW_SIZE,
                    forall|j: int|
                        0 <= j < 4 * x + z ==> (#[trigger] line_owner(b, scan_line(j))) is None,
            {
                let line = Line { x: Axis::Fixed(x), y: Axis::Rising, z: Axis::Fixed(z) };
                assert(line == scan_line(4 * x + z));
                if let Some(win_row) = self.check_win_row(line) {
                    assert(is_first_win(b, 4 * x + z));
                    return Some(win_row);
                }
            }
        }

        // Horizontal rows with constant x, y.
        for x in 0..ROW_SIZE
            invariant
                b == self@,
                forall|j: int|
                    0 <= j < 16 + 4 * x ==> (#[trigger] line_owner(b, scan_line(j))) is None,
        {
            for y in 0..ROW_SIZE
                invariant
                    b == self@,
                    x < ROW_SIZE,
                    forall|j: int|
                        0 <= j < 16 + 4 * x + y ==> (#[trigger] line_owner(
                            b,
                            scan_line(j),
                        )) is None,
            {
                let line = Line { x: Axis::Fixed(x), y: Axis::Fixed(y), z: Axis::Rising };
                assert(line == scan_line(16 + 4 * x + y));
                if let Some(win_row) = self.check_win_row(line) {
                    assert(is_first_win(b, 16 + 4 * x + y));
                    return Some(win_row);
                }
            }
        }

        // Horizontal rows with constant z, y.
        for z in 0..ROW_SIZE
            invariant
                b == self@,
                forall|j: int|
                    0 <= j < 32 + 4 * z ==> (#[trigger] line_owner(b, scan_line(j))) is None,
        {
            for y in 0..ROW_SIZE
                invariant
                    b == self@,
                    z < ROW_SIZE,
                    forall|j: int|
                        0 <= j < 32 + 4 * z + y ==> (#[trigger] line_owner(
                            b,
                            scan_line(j),
                        )) is None,
            {
                let line = Line { x: Axis::Rising, y: Axis::Fixed(y), z: Axis::Fixed(z) };
                assert(line == scan_line(32 + 4 * z + y));
                if let Some(win_row) = self.check_win_row(line) {
                    assert(is_first_win(b, 32 + 4 * z + y));
                    return Some(win_row);
                }
            }
        }

        // Diagonal rows with constant x.
        for x in 0..ROW_SIZE
            invariant
                b == self@,
                forall|j: int|
                    0 <= j < 48 + 2 * x ==> (#[trigger] line_owner(b, scan_line(j))) is None,
        {
            // Ascending y
            let line = Line { x: Axis::Fixed(x), y: Axis::Rising, z: Axis::Rising };
            assert(line == scan_line(48 + 2 * x));
            if let Some(win_row) = self.check_win_row(line) {
                assert(is_first_win(b, 48 + 2 * x));
                return Some(win_row);
            }
            // Descending y

            let line = Line { x: Axis::Fixed(x), y: Axis::Falling, z: Axis::Rising };
            assert(line == scan_line(48 + 2 * x + 1));
            if let Some(win_row) = self.check_win_row(line) {
                assert(is_first_win(b, 48 + 2 * x + 1));
                return Some(win_row);
            }
        }

        // Diagonal rows with constant z.
        for z in 0..ROW_SIZE
            invariant
                b == self@,
                forall|j: int|
                    0 <= j < 56 + 2 * z ==> (#[trigger] line_owner(b, scan_line(j))) is None,
        {
            // Ascending y
            let line = Line { x: Axis::Rising, y: Axis::Rising, z: Axis::Fixed(z) };
            assert(line == scan_line(56 + 2 * z));
            if let Some(win_row) = self.check_win_row(line) {
                assert(is_first_win(b, 56 + 2 * z));
                return Some(win_row);
            }
            // Descending y

            let line = Line { x: Axis::Rising, y: Axis::Falling, z: Axis::Fixed(z) };
            assert(line == scan_line(56 + 2 * z + 1));
            if let Some(win_row) = self.check_win_row(line) {
                assert(is_first_win(b, 56 + 2 * z + 1));
                return Some(win_row);
            }
        }

        // Diagonal rows with constant y.
        for y in 0..ROW_SIZE
            invariant
                b == self@,
                forall|j: int|
                    0 <= j < 64 + 2 * y ==> (#[trigger] line_owner(b, scan_line(j))) is None,
        {
            // Ascending z
            let line = Line { x: Axis::Rising, y: Axis::Fixed(y), z: Axis::Rising };
            assert(line == scan_line(64 + 2 * y));
            if let Some(win_row) = self.check_win_row(line) {
                assert(is_first_win(b, 64 + 2 * y));
                return Some(win_row);
            }
            // Descending z

            let line = Line { x: Axis::Rising, y: Axis::Fixed(y), z: Axis::Falling };
            assert(line == scan_line(64 + 2 * y + 1));
            if let Some(win_row) = self.check_win_row(line) {
                assert(is_first_win(b, 64 + 2 * y + 1));
                return Some(win_row);
            }
        }

        // 3D diagonal with ascending x, y, z
        let line = Line { x: Axis::Rising, y: Axis::Rising, z: Axis::Rising };
        assert(line == scan_line(72));
        if let Some(win_row) = self.check_win_row(line) {
            assert(is_first_win(b, 72));
            return Some(win_row);
        }
        // 3D diagonal with ascending x, z; descending y

        let line = Line { x: Axis::Rising, y: Axis::Falling, z: Axis::Rising };
        assert(line == scan_line(73));
        if let Some(win_row) = self.check_win_row(line) {
            assert(is_first_win(b, 73));
            return Some(win_row);
        }
        // 3D diagonal with ascending x, y; descending z

        let line = Line { x: Axis::Rising, y: Axis::Rising, z: Axis::Falling };
        assert(line == scan_line(74));
        if let Some(win_row) = self.check_win_row(line) {
            assert(is_first_win(b, 74));
            return Some(win_row);
        }
        // 3D diagonal with ascending x; descending y, z

        let line = Line { x: Axis::Rising, y: Axis::Falling, z: Axis::Falling };
        assert(line == scan_line(75));
        if let Some(win_row) = self.check_win_row(line) {
            assert(is_first_win(b, 75));
            return Some(win_row);
        }
        None
    }

    /// Checks whether the cells of a single line all hold tokens of the same side.
    fn check_win_row(&self, line: Line) -> (r: Option<WinRow>)
        requires
            line.in_bounds(),
        ensures
            match r {
                Some(w) => is_row_of(self@, line, w),
                None => line_owner(self@, line) is None,
            },
    {
        let mut row_side: Option<Side> = None;
        let mut row = [TokenCoords { x: 0, y: 0, z: 0 };ROW_SIZE];

        for i in 0..ROW_SIZE
            invariant
                line.in_bounds(),
                i > 0 ==> row_side is Some && row_side == cell_at(self@, line.cell(0)),
                forall|n: int|
                    0 <= n < i ==> cell_at(self@, #[trigger] line.cell(n)) == row_side && row@[n]
                        == line.cell(n),
        {
            let tcoords = line.cell_coords(i);
            match self.get_token(tcoords) {
                Some(side) => {
                    row[i] = tcoords;
                    if i == 0 {
                        // On the first token, just remember the side of the row.
                        row_side = Some(side);
                    } else {
                        // On all other tokens, check that the side remains the same.
                        match row_side {
                            Some(s) => {
                                if s != side {
                                    return None;
                                }
                            },
                            None => {
                                return None;
                            },
                        }
                    }
                },
                None => {
                    // There is no token here, therefore no row.
                    return None;
                },
            }
        }

        // This was a winning row!
        match row_side {
            Some(side) => {
                assert(row@ =~= line.cells());
                Some(WinRow { side, row })
            },
            None => None,
        }
    }
}

/// Two boards with the same cells are the same board.
pub proof fn lemma_same_cells_same_board(a: BoardState, b: BoardState)
    requires
        a@ == b@,
    ensures
        a == b,
{
    assert(a.tokens =~= b.tokens);
}

/// A scan of a board has one result only.
pub proof fn lemma_scan_result_unique(b: Seq<Option<Side>>, r1: Option<WinRow>, r2: Option<WinRow>)
    requires
        is_scan_result(b, r1),
        is_scan_result(b, r2),
    ensures
        r1 == r2,
{
    match (r1, r2) {
        (Some(w1), Some(w2)) => {
            let k1 = choose|k: int| #[trigger] is_first_win(b, k) && is_row_of(b, scan_line(k), w1);
            let k2 = choose|k: int| #[trigger] is_first_win(b, k) && is_row_of(b, scan_line(k), w2);
            assert(k1 == k2);
            assert(w1.row =~= w2.row);
        },
        (Some(w1), None) => {
            let k1 = choose|k: int| #[trigger] is_first_win(b, k) && is_row_of(b, scan_line(k), w1);
            assert(line_owner(b, scan_line(k1)) is Some);
        },
        (None, Some(w2)) => {
            let k2 = choose|k: int| #[trigger] is_first_win(b, k) && is_row_of(b, scan_line(k), w2);
            assert(line_owner(b, scan_line(k2)) is Some);
        },
        (None, None) => {},
    }
}

/// What a scan of the board `b` for a winner gives.
pub open spec fn scan(b: Seq<Option<Side>>) -> Option<WinRow> {
    choose|r: Option<WinRow>| is_scan_result(b, r)
}

/// The side that has won on the board `b`, if any: the owner of the first
/// line in scanning order that one side holds entirely.
pub open spec fn winner_of(b: Seq<Option<Side>>) -> Option<Side> {
    match scan(b) {
        Some(w) => Some(w.side),
        None => None,
    }
}

/// A result of a scan of the board `b` is the result of the scan, and it is
/// a row exactly where some line of the board is held entirely by one side.
pub proof fn lemma_scan(b: Seq<Option<Side>>, r: Option<WinRow>)
    requires
        is_scan_result(b, r),
    ensures
        scan(b) == r,
        r is None <==> no_win(b),
{
    lemma_scan_result_unique(b, r, scan(b));
    if let Some(w) = r {
        let k = choose|k: int| #[trigger] is_first_win(b, k) && is_row_of(b, scan_line(k), w);
        assert(line_owner(b, scan_line(k)) is Some);
    }
}

/// A side owns a line exactly where each of its cells holds a token of that side.
pub proof fn lemma_line_owner(b: Seq<Option<Side>>, l: Line, side: Side)
    ensures
        line_owner(b, l) == Some(side) <==> (forall|n: int|
            0 <= n < ROW_SIZE ==> cell_at(b, #[trigger] l.cell(n)) == Some(side)),
{
    if forall|n: int| 0 <= n < ROW_SIZE ==> cell_at(b, #[trigger] l.cell(n)) == Some(side) {
        assert(cell_at(b, l.cell(0)) == Some(side));
    }
}

/// A scan of the board gives a row exactly where some line of the board is
/// held entirely by one side.
pub proof fn lemma_win_iff_full_line(b: Seq<Option<Side>>, r: Option<WinRow>)
    requires
        is_scan_result(b, r),
    ensures
        r is Some <==> has_full_line(b),
{
    lemma_scan(b, r);
    if has_full_line(b) {
        let k = choose|k: int|
            0 <= k < LINE_COUNT && (#[trigger] line_owner(b, scan_line(k))) is Some;
        assert(!no_win(b));
    }
}

/// The empty board has no winner.
pub proof fn lemma_empty_board_no_win()
    ensures
        no_win(empty_board()),
{
    assert forall|k: int| 0 <= k < LINE_COUNT implies (#[trigger] line_owner(
        empty_board(),
        scan_line(k),
    )) is None by {
        let l = scan_line(k);
        let c = l.cell(0);
        assert(0 <= cell_index(c.x as int, c.y as int, c.z as int) < 64);
    }
}

/// The coordinate that starts at `c` and moves in the direction `d` (-1, 0 or
/// 1), after `n` steps.
pub open spec fn walk(c: int, d: int, n: int) -> int {
    if d == 0 {
        c
    } else if d > 0 {
        c + n
    } else {
        c - n
    }
}

/// The cell that is `n` steps from `start` in the direction `(dx, dy, dz)`.
pub open spec fn walk_cell(start: TokenCoords, dx: int, dy: int, dz: int, n: int) -> TokenCoords {
    TokenCoords {
        x: walk(start.x as int, dx, n) as usize,
        y: walk(start.y as int, dy, n) as usize,
        z: walk(start.z as int, dz, n) as usize,
    }
}

/// `ROW_SIZE` cells from `start` on in the direction `(dx, dy, dz)` form a
/// straight line on the board: the direction is one of the 26 to a neighbour
/// cell, and no cell of the line leaves the board.
pub open spec fn is_straight_line(start: TokenCoords, dx: int, dy: int, dz: int) -> bool {
    &&& -1 <= dx <= 1 && -1 <= dy <= 1 && -1 <= dz <= 1
    &&& !(dx == 0 && dy == 0 && dz == 0)
    &&& forall|n: int|
        0 <= n < ROW_SIZE ==> {
            &&& 0 <= #[trigger] walk(start.x as int, dx, n) < ROW_SIZE
            &&& 0 <= walk(start.y as int, dy, n) < ROW_SIZE
            &&& 0 <= walk(start.z as int, dz, n) < ROW_SIZE
        }
}

/// The number in scanning order of the straight line from `start` in the
/// direction `(dx, dy, dz)`.
pub open spec fn line_number(start: TokenCoords, dx: int, dy: int, dz: int) -> int {
    if dx == 0 && dz == 0 {
        start.x * 4 + start.z
    } else if dx == 0 && dy == 0 {
        16 + start.x * 4 + start.y
    } else if dy == 0 && dz == 0 {
        32 + start.z * 4 + start.y
    } else if dx == 0 {
        48 + start.x * 2 + if dy == dz { 0int } else { 1int }
    } else if dz == 0 {
        56 + start.z * 2 + if dy == dx { 0int } else { 1int }
    } else if dy == 0 {
        64 + start.y * 2 + if dz == dx { 0int } else { 1int }
    } else {
        72 + (if dy == dx { 0int } else { 1int }) + (if dz == dx { 0int } else { 2int })
    }
}

/// Every straight line on the board is scanned: the line with its number in
/// scanning order goes through the same cells, from the one end or the other.
/// So the scan covers all 13 directions: 3 along an axis, 6 diagonal in a
/// plane, 4 diagonal through the cube.
pub proof fn lemma_every_straight_line_is_scanned(start: TokenCoords, dx: int, dy: int, dz: int)
    requires
        is_straight_line(start, dx, dy, dz),
    ensures
        0 <= line_number(start, dx, dy, dz) < LINE_COUNT,
        scan_line(line_number(start, dx, dy, dz)).in_bounds(),
        (forall|n: int|
            0 <= n < ROW_SIZE ==> #[trigger] scan_line(line_number(start, dx, dy, dz)).cell(n)
                == walk_cell(start, dx, dy, dz, n)) || (forall|n: int|
            0 <= n < ROW_SIZE ==> #[trigger] scan_line(line_number(start, dx, dy, dz)).cell(n)
                == walk_cell(start, dx, dy, dz, ROW_SIZE - 1 - n)),
{
    let k = line_number(start, dx, dy, dz);
    let l = scan_line(k);
    assert(0 <= walk(start.x as int, dx, 0) < ROW_SIZE);
    assert(0 <= walk(start.x as int, dx, 3) < ROW_SIZE);
    assert(0 <= k < LINE_COUNT);
    assert(l.in_bounds());
    // The line runs as the scanned one does where its first moving coordinate rises.
    let forward = if dx != 0 {
        dx > 0
    } else if dz != 0 {
        dz > 0
    } else {
        dy > 0
    };
    if forward {
        assert forall|n: int| 0 <= n < ROW_SIZE implies #[trigger] l.cell(n) == walk_cell(
            start,
            dx,
            dy,
            dz,
            n,
        ) by {}
    } else {
        assert forall|n: int| 0 <= n < ROW_SIZE implies #[trigger] l.cell(n) == walk_cell(
            start,
            dx,
            dy,
            dz,
            ROW_SIZE - 1 - n,
        ) by {}
    }
}

/// A board on which one side holds every cell of some straight line has a winner.
pub proof fn lemma_full_line_wins(
    b: Seq<Option<Side>>,
    side: Side,
    start: TokenCoords,
    dx: int,
    dy: int,
    dz: int,
)
    requires
        is_straight_line(start, dx, dy, dz),
        forall|n: int|
            0 <= n < ROW_SIZE ==> cell_at(b, #[trigger] walk_cell(start, dx, dy, dz, n)) == Some(
                side,
            ),
    ensures
        is_first_win(b, line_number(start, dx, dy, dz)) || exists|j: int|
            0 <= j < line_number(start, dx, dy, dz) && #[trigger] is_first_win(b, j),
        !no_win(b),
{
    lemma_every_straight_line_is_scanned(start, dx, dy, dz);
    let k = line_number(start, dx, dy, dz);
    let l = scan_line(k);
    assert forall|n: int| 0 <= n < ROW_SIZE implies cell_at(b, #[trigger] l.cell(n)) == Some(
        side,
    ) by {
        assert(l.cell(n) == walk_cell(start, dx, dy, dz, n) || l.cell(n) == walk_cell(
            start,
            dx,
            dy,
            dz,
            ROW_SIZE - 1 - n,
        ));
    }
    assert(cell_at(b, l.cell(0)) == Some(side));
    assert(line_owner(b, l) == Some(side));
    lemma_first_win_exists(b, k);
}

impl Game {
    /// A game on whose board one side holds every cell of some straight line
    /// has a winning row. Where no other line of the board is held by one side,
    /// the winning row is that line: its side, and its cells.
    pub proof fn lemma_finds_full_line(
        &self,
        side: Side,
        start: TokenCoords,
        dx: int,
        dy: int,
        dz: int,
    )
        requires
            self.wf(),
            is_straight_line(start, dx, dy, dz),
            forall|n: int|
                0 <= n < ROW_SIZE ==> cell_at(self@, #[trigger] walk_cell(start, dx, dy, dz, n))
                    == Some(side),
        ensures
            self.win_row() is Some,
            (forall|j: int|
                0 <= j < LINE_COUNT && j != line_number(start, dx, dy, dz) ==> (
                #[trigger] line_owner(self@, scan_line(j))) is None) ==> {
                &&& self.win_row()->0.side == side
                &&& self.win_row()->0.row@ == scan_line(line_number(start, dx, dy, dz)).cells()
            },
    {
        lemma_full_line_wins(self@, side, start, dx, dy, dz);
        lemma_scan(self@, self.win_row());
        let k = line_number(start, dx, dy, dz);
        let w = self.win_row()->0;
        let f = choose|f: int| #[trigger]
            is_first_win(self@, f) && is_row_of(self@, scan_line(f), w);
        if forall|j: int|
            0 <= j < LINE_COUNT && j != k ==> (#[trigger] line_owner(self@, scan_line(j))) is None {
            assert(f == k);
            lemma_every_straight_line_is_scanned(start, dx, dy, dz);
            let l = scan_line(k);
            assert(l.cell(0) == walk_cell(start, dx, dy, dz, 0) || l.cell(0) == walk_cell(
                start,
                dx,
                dy,
                dz,
                ROW_SIZE - 1 - 0,
            ));
        }
    }
}

/// Where the line number `k` is held by one side, some line up to `k` is the
/// first such line in scanning order.
pub proof fn lemma_first_win_exists(b: Seq<Option<Side>>, k: int)
    requires
        0 <= k < LINE_COUNT,
        line_owner(b, scan_line(k)) is Some,
    ensures
        is_first_win(b, k) || exists|j: int| 0 <= j < k && #[trigger] is_first_win(b, j),
    decreases k,
{
    if !is_first_win(b, k) {
        let j = choose|j: int| 0 <= j < k && (#[trigger] line_owner(b, scan_line(j))) is Some;
        lemma_first_win_exists(b, j);
        if !is_first_win(b, j) {
            let i = choose|i: int| 0 <= i < j && #[trigger] is_first_win(b, i);
            assert(0 <= i < k && is_first_win(b, i));
        }
    }
}

} // verus!
