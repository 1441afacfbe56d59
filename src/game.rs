use vstd::prelude::*;

verus! {

/// The symbol placed in a cell.
#[derive(Clone, Copy, Debug, PartialEq, Eq, Structural)]
pub enum MoveMark {
    X,
    O,
}

/// Who plays one side of a game.
#[derive(Debug, PartialEq, Eq, Structural)]
pub enum Player {
    Computer,
    Human,
}

/// Column of a cell.
#[derive(Clone, Copy, Debug, PartialEq, Eq, Hash, Structural)]
pub enum HorizontalPos {
    Left,
    Center,
    Right,
}

/// Row of a cell.
#[derive(Clone, Copy, Debug, PartialEq, Eq, Hash, Structural)]
pub enum VerticalPos {
    Top,
    Center,
    Bottom,
}

/// Column number of a horizontal position, from 0 on the left.
pub open spec fn column_of(x: HorizontalPos) -> nat {
    match x {
        HorizontalPos::Left => 0,
        HorizontalPos::Center => 1,
        HorizontalPos::Right => 2,
    }
}

/// Row number of a vertical position, from 0 at the top.
pub open spec fn row_of(y: VerticalPos) -> nat {
    match y {
        VerticalPos::Top => 0,
        VerticalPos::Center => 1,
        VerticalPos::Bottom => 2,
    }
}

/// Where the cell at (x, y) is kept among the nine cells, row by row.
pub open spec fn cell_index(x: HorizontalPos, y: VerticalPos) -> nat {
    3 * row_of(y) + column_of(x)
}

fn cell_slot(x: HorizontalPos, y: VerticalPos) -> (r: usize)
    ensures
        r as nat == cell_index(x, y),
        r < 9,
{
    let row: usize = match y {
        VerticalPos::Top => 0,
        VerticalPos::Center => 1,
        VerticalPos::Bottom => 2,
    };
    let column: usize = match x {
        HorizontalPos::Left => 0,
        HorizontalPos::Center => 1,
        HorizontalPos::Right => 2,
    };
    3 * row + column
}

/// The nine cells after `m` is written at (x, y): the cell takes `m` if it
/// is empty and keeps what it holds otherwise; no other cell changes.
pub open spec fn with_mark(
    cells: Seq<Option<MoveMark>>,
    x: HorizontalPos,
    y: VerticalPos,
    m: MoveMark,
) -> Seq<Option<MoveMark>> {
    if cells[cell_index(x, y) as int] is None {
        cells.update(cell_index(x, y) as int, Some(m))
    } else {
        cells
    }
}

/// A 3x3 grid in which each cell holds at most one mark, and keeps the
/// first one written to it.
pub struct Board {
    cells: Vec<Option<MoveMark>>,
}

impl Board {
    /// The nine cells, row by row from the top, left to right in each row.
    pub closed spec fn cells(&self) -> Seq<Option<MoveMark>> {
        self.cells@
    }

    /// The board holds exactly nine cells.
    pub open spec fn wf(&self) -> bool {
        self.cells().len() == 9
    }

    /// What the cell at (x, y) holds.
    pub open spec fn cell(&self, x: HorizontalPos, y: VerticalPos) -> Option<MoveMark> {
        self.cells()[cell_index(x, y) as int]
    }

    /// A board with every cell empty.
    pub fn default() -> (r: Board)
        ensures
            r.wf(),
            forall|x: HorizontalPos, y: VerticalPos| #[trigger] r.cell(x, y) == None::<MoveMark>,
    {
        let mut cells: Vec<Option<MoveMark>> = Vec::new();
        let mut i: usize = 0;
        while i < 9
            invariant
                i <= 9,
                cells@.len() == i,
                forall|k: int| 0 <= k < i ==> cells@[k] == None::<MoveMark>,
            decreases 9 - i,
        {
            cells.push(None);
            i = i + 1;
        }
        Board { cells }
    }

    /// The mark at (x, y), if the cell has been written.
    pub fn get_cell_at(&self, x: HorizontalPos, y: VerticalPos) -> (r: Option<&MoveMark>)
        requires
            self.wf(),
        ensures
            r == match self.cell(x, y) {
                Some(m) => Some(&m),
                None => None::<&MoveMark>,
            },
    {
        let slot = cell_slot(x, y);
        match &self.cells[slot] {
            Some(m) => Some(m),
            None => None,
        }
    }

    /// Writes `mark` at (x, y) if that cell is empty; otherwise does nothing.
    pub fn set_cell_at(&mut self, x: HorizontalPos, y: VerticalPos, mark: MoveMark)
        requires
            old(self).wf(),
        ensures
            final(self).wf(),
            final(self).cells() == with_mark(old(self).cells(), x, y, mark),
            final(self).cell(x, y) == (match old(self).cell(x, y) {
                Some(m) => Some(m),
                None => Some(mark),
            }),
            forall|x2: HorizontalPos, y2: VerticalPos|
                (x2, y2) != (x, y) ==> #[trigger] final(self).cell(x2, y2) == old(self).cell(x2, y2),
    {
        let slot = cell_slot(x, y);
        if self.cells[slot].is_none() {
            self.cells.set(slot, Some(mark));
        }
    }
}

/// A mark written to an empty cell is what the cell then holds.
pub proof fn lemma_written_mark_is_read(
    cells: Seq<Option<MoveMark>>,
    x: HorizontalPos,
    y: VerticalPos,
    m: MoveMark,
)
    requires
        cells.len() == 9,
        cells[cell_index(x, y) as int] is None,
    ensures
        with_mark(cells, x, y, m)[cell_index(x, y) as int] == Some(m),
{
}

/// Once a cell holds a mark, writing to it again changes nothing.
pub proof fn lemma_marked_cell_is_kept(
    cells: Seq<Option<MoveMark>>,
    x: HorizontalPos,
    y: VerticalPos,
    m: MoveMark,
)
    requires
        cells.len() == 9,
        cells[cell_index(x, y) as int] is Some,
    ensures
        with_mark(cells, x, y, m) == cells,
{
}

/// Of two marks written in turn to the same empty cell, the first stays,
/// whether or not the two are equal.
pub proof fn lemma_first_mark_wins(
    cells: Seq<Option<MoveMark>>,
    x: HorizontalPos,
    y: VerticalPos,
    m1: MoveMark,
    m2: MoveMark,
)
    requires
        cells.len() == 9,
        cells[cell_index(x, y) as int] is None,
    ensures
        with_mark(with_mark(cells, x, y, m1), x, y, m2) == with_mark(cells, x, y, m1),
        with_mark(with_mark(cells, x, y, m1), x, y, m2)[cell_index(x, y) as int] == Some(m1),
{
    lemma_written_mark_is_read(cells, x, y, m1);
    lemma_marked_cell_is_kept(with_mark(cells, x, y, m1), x, y, m2);
}

/// The mark other than `m`.
pub open spec fn other_mark(m: MoveMark) -> MoveMark {
    match m {
        MoveMark::X => MoveMark::O,
        MoveMark::O => MoveMark::X,
    }
}

/// The mark placed on turn `n`, counting the first turn as 0: X opens and
/// the two marks alternate.
pub open spec fn mark_of_turn(n: nat) -> MoveMark {
    if n % 2 == 0 {
        MoveMark::X
    } else {
        MoveMark::O
    }
}

/// Turns alternate without end: X opens, each turn's mark differs from the
/// one before, and turn `n` (counted from 0) is X exactly when `n` is even.
pub proof fn lemma_turns_alternate(n: nat)
    ensures
        mark_of_turn(0) == MoveMark::X,
        mark_of_turn(n + 1) == other_mark(mark_of_turn(n)),
        (mark_of_turn(n) == MoveMark::X) <==> n % 2 == 0,
        (mark_of_turn(n) == MoveMark::O) <==> n % 2 == 1,
{
}

/// Index of a cell on the board, counted row by row from the top left.
pub type BoardCell = usize;

/// Two players sharing a board, with X and O taking turns, X first.
pub struct Game {
    pub player_1: Player,
    pub player_2: Player,
    pub board: Board,
    /// The mark to be handed out next.
    pub next: MoveMark,
    /// How many marks have been handed out so far.
    pub taken: Ghost<nat>,
}

impl Game {
    /// How many marks the game has handed out so far.
    pub open spec fn turns_taken(&self) -> nat {
        self.taken@
    }

    /// The board is whole and the mark to come is the one for the turns taken.
    pub open spec fn wf(&self) -> bool {
        &&& self.board.wf()
        &&& self.next == mark_of_turn(self.taken@)
    }

    /// A game between `p1` and `p2` on an empty board, with X to move.
    pub fn new(p1: Player, p2: Player) -> (r: Game)
        ensures
            r.wf(),
            r.player_1 == p1,
            r.player_2 == p2,
            r.board.wf(),
            forall|x: HorizontalPos, y: VerticalPos| #[trigger] r.board.cell(x, y) == None::<MoveMark>,
            r.turns_taken() == 0,
    {
        Game {
            player_1: p1,
            player_2: p2,
            board: Board::default(),
            next: Game::turns(),
            taken: Ghost(0),
        }
    }

    /// A game between two computer players on an empty board, with X to move.
    pub fn default() -> (r: Game)
        ensures
            r.wf(),
            r.player_1 == Player::Computer,
            r.player_2 == Player::Computer,
            r.board.wf(),
            forall|x: HorizontalPos, y: VerticalPos| #[trigger] r.board.cell(x, y) == None::<MoveMark>,
            r.turns_taken() == 0,
    {
        Game::new(Player::Computer, Player::Computer)
    }

    /// The mark that opens every game.
    fn turns() -> (r: MoveMark)
        ensures
            r == mark_of_turn(0),
    {
        MoveMark::X
    }

    /// Hands out the mark whose turn it is and passes the turn to the other.
    pub fn next_mark(&mut self) -> (r: MoveMark)
        requires
            old(self).wf(),
        ensures
            final(self).wf(),
            r == mark_of_turn(old(self).turns_taken()),
            final(self).turns_taken() == old(self).turns_taken() + 1,
            final(self).player_1 == old(self).player_1,
            final(self).player_2 == old(self).player_2,
            final(self).board == old(self).board,
    {
        let r = self.next;
        self.next = match r {
            MoveMark::X => MoveMark::O,
            MoveMark::O => MoveMark::X,
        };
        self.taken = Ghost(self.taken@ + 1);
        r
    }

    /// The next move: the mark whose turn it is, aimed at the first cell.
    pub fn fetch_move(&mut self) -> (r: (BoardCell, MoveMark))
        requires
            old(self).wf(),
        ensures
            final(self).wf(),
            r == (0usize, mark_of_turn(old(self).turns_taken())),
            final(self).turns_taken() == old(self).turns_taken() + 1,
            final(self).player_1 == old(self).player_1,
            final(self).player_2 == old(self).player_2,
            final(self).board == old(self).board,
    {
        (0, self.next_mark())
    }
}

/// The three columns, left to right.
pub fn horizontal_positions() -> (r: Vec<HorizontalPos>)
    ensures
        r@ == seq![HorizontalPos::Left, HorizontalPos::Center, HorizontalPos::Right],
{
    vec![HorizontalPos::Left, HorizontalPos::Center, HorizontalPos::Right]
}

/// The three rows, top to bottom.
pub fn vertical_positions() -> (r: Vec<VerticalPos>)
    ensures
        r@ == seq![VerticalPos::Top, VerticalPos::Center, VerticalPos::Bottom],
{
    vec![VerticalPos::Top, VerticalPos::Center, VerticalPos::Bottom]
}

} // verus!
