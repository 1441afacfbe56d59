use vstd::prelude::*;

use crate::game::{Board, Game, HorizontalPos, MoveMark, Player, VerticalPos};
use crate::game::{horizontal_positions, vertical_positions};

verus! {

/// `parts` laid end to end with `sep` between each two neighbours.
pub open spec fn join_with(parts: Seq<Seq<char>>, sep: Seq<char>) -> Seq<char>
    decreases parts.len(),
{
    if parts.len() == 0 {
        Seq::empty()
    } else if parts.len() == 1 {
        parts[0]
    } else {
        join_with(parts.drop_last(), sep) + sep + parts.last()
    }
}

/// How one cell is drawn: its mark, or a blank.
pub open spec fn cell_text(cell: Option<MoveMark>) -> Seq<char> {
    match cell {
        None => seq![' '],
        Some(MoveMark::X) => seq!['X'],
        Some(MoveMark::O) => seq!['O'],
    }
}

/// How row `y` is drawn: its cells left to right, split by `|`.
pub open spec fn row_text(board: Board, y: VerticalPos) -> Seq<char> {
    join_with(
        seq![
            cell_text(board.cell(HorizontalPos::Left, y)),
            cell_text(board.cell(HorizontalPos::Center, y)),
            cell_text(board.cell(HorizontalPos::Right, y)),
        ],
        seq!['|'],
    )
}

/// The line drawn between two rows.
pub open spec fn row_rule() -> Seq<char> {
    seq!['\n', '-', '-', '-', '-', '-', '\n']
}

/// How the whole board is drawn: its rows top to bottom, split by a rule.
pub open spec fn board_text(board: Board) -> Seq<char> {
    join_with(
        seq![
            row_text(board, VerticalPos::Top),
            row_text(board, VerticalPos::Center),
            row_text(board, VerticalPos::Bottom),
        ],
        row_rule(),
    )
}

/// The players that a menu choice stands for, if it is one of the three.
pub open spec fn players_for_choice(choice: Seq<char>) -> Option<(Player, Player)> {
    if choice.len() != 1 {
        None
    } else if choice[0] == '1' {
        Some((Player::Human, Player::Computer))
    } else if choice[0] == '2' {
        Some((Player::Human, Player::Human))
    } else if choice[0] == '3' {
        Some((Player::Computer, Player::Computer))
    } else {
        None
    }
}

/// The message for a menu choice that names no pair of players.
pub open spec fn choice_error(choice: Seq<char>) -> Seq<char> {
    "Unable to parse game players from string index: "@ + choice
}

/// Lays `parts` end to end with `sep` between each two neighbours.
pub fn join(parts: &Vec<String>, sep: &str) -> (r: String)
    ensures
        r@ == join_with(parts@.map_values(|p: String| p@), sep@),
{
    let ghost views = parts@.map_values(|p: String| p@);
    let mut r = String::new();
    let mut i: usize = 0;
    while i < parts.len()
        invariant
            i <= parts@.len(),
            views == parts@.map_values(|p: String| p@),
            r@ == join_with(views.take(i as int), sep@),
        decreases parts@.len() - i,
    {
        assert(views.take(i as int + 1).drop_last() == views.take(i as int));
        if i > 0 {
            r.append(sep);
        }
        r.append(parts[i].as_str());
        i = i + 1;
    }
    assert(views.take(parts@.len() as int) == views);
    r
}

/// A menu over a game: draws its board and reads the choice of players.
pub struct Ui {
    pub game: Game,
}

impl Ui {
    /// A menu over a game between two computer players on an empty board.
    pub fn default() -> (r: Ui)
        ensures
            r.game.wf(),
            r.game.player_1 == Player::Computer,
            r.game.player_2 == Player::Computer,
            forall|x: HorizontalPos, y: VerticalPos|
                #[trigger] r.game.board.cell(x, y) == None::<MoveMark>,
            r.game.turns_taken() == 0,
    {
        Ui { game: Game::default() }
    }

    /// The players that a menu choice stands for: "1" a human against the
    /// computer, "2" two humans, "3" two computers. Anything else is refused
    /// with a message that repeats it.
    pub fn parse_game_players(&self, input: &str) -> (r: Result<(Player, Player), String>)
        ensures
            players_for_choice(input@) matches Some(p) ==> r == Ok::<(Player, Player), String>(p),
            players_for_choice(input@) is None ==> (r matches Err(e) && e@ == choice_error(input@)),
    {
        if input.unicode_len() == 1 {
            let c = input.get_char(0);
            if c == '1' {
                return Ok((Player::Human, Player::Computer));
            } else if c == '2' {
                return Ok((Player::Human, Player::Human));
            } else if c == '3' {
                return Ok((Player::Computer, Player::Computer));
            }
        }
        let mut message = String::from_str("Unable to parse game players from string index: ");
        message.append(input);
        Err(message)
    }

    /// The board drawn row by row, top to bottom, with a rule between rows.
    pub fn show_board(&self) -> (r: String)
        requires
            self.game.board.wf(),
        ensures
            r@ == board_text(self.game.board),
    {
        let ys = vertical_positions();
        let mut rows: Vec<String> = Vec::new();
        let mut i: usize = 0;
        while i < ys.len()
            invariant
                i <= 3,
                ys@ == seq![VerticalPos::Top, VerticalPos::Center, VerticalPos::Bottom],
                self.game.board.wf(),
                rows@.len() == i,
                forall|k: int| 0 <= k < i ==> #[trigger] rows@[k]@ == row_text(self.game.board, ys@[k]),
            decreases 3 - i,
        {
            rows.push(self.show_row(ys[i]));
            i = i + 1;
        }
        let r = join(&rows, "\n-----\n");
        proof {
            let views = rows@.map_values(|p: String| p@);
            assert(views == seq![
                row_text(self.game.board, VerticalPos::Top),
                row_text(self.game.board, VerticalPos::Center),
                row_text(self.game.board, VerticalPos::Bottom),
            ]);
            reveal_strlit("\n-----\n");
            assert("\n-----\n"@ == row_rule());
        }
        r
    }

    /// One cell drawn as its mark, or as a blank when it is empty.
    pub fn show_cell(&self, x: HorizontalPos, y: VerticalPos) -> (r: String)
        requires
            self.game.board.wf(),
        ensures
            r@ == cell_text(self.game.board.cell(x, y)),
    {
        proof {
            reveal_strlit(" ");
            reveal_strlit("X");
            reveal_strlit("O");
        }
        match self.game.board.get_cell_at(x, y) {
            None => String::from_str(" "),
            Some(MoveMark::X) => String::from_str("X"),
            Some(MoveMark::O) => String::from_str("O"),
        }
    }

    /// Row `y` drawn left to right, with `|` between cells.
    pub fn show_row(&self, y: VerticalPos) -> (r: String)
        requires
            self.game.board.wf(),
        ensures
            r@ == row_text(self.game.board, y),
    {
        let xs = horizontal_positions();
        let mut cells: Vec<String> = Vec::new();
        let mut i: usize = 0;
        while i < xs.len()
            invariant
                i <= 3,
                xs@ == seq![HorizontalPos::Left, HorizontalPos::Center, HorizontalPos::Right],
                self.game.board.wf(),
                cells@.len() == i,
                forall|k: int|
                    0 <= k < i ==> #[trigger] cells@[k]@ == cell_text(self.game.board.cell(xs@[k], y)),
            decreases 3 - i,
        {
            cells.push(self.show_cell(xs[i], y));
            i = i + 1;
        }
        let r = join(&cells, "|");
        proof {
            let views = cells@.map_values(|p: String| p@);
            assert(views == seq![
                cell_text(self.game.board.cell(HorizontalPos::Left, y)),
                cell_text(self.game.board.cell(HorizontalPos::Center, y)),
                cell_text(self.game.board.cell(HorizontalPos::Right, y)),
            ]);
            reveal_strlit("|");
            assert("|"@ == seq!['|']);
        }
        r
    }
}

} // verus!
