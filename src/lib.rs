//! A tic-tac-toe core: a board whose cells keep the first mark written to
//! them, a game that hands out X and O in turn, and a text drawing of the
//! board.

pub mod game;
pub mod ui;

pub use game::{
    horizontal_positions, vertical_positions, Board, Game, HorizontalPos, MoveMark, Player,
    VerticalPos,
};
pub use ui::Ui;
