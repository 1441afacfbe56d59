use tictactoe::ui::join;
use tictactoe::{
    horizontal_positions, vertical_positions, Board, Game, HorizontalPos, MoveMark, Player, Ui,
    VerticalPos,
};

fn every_cell() -> Vec<(HorizontalPos, VerticalPos)> {
    let mut cells = Vec::new();
    for x in horizontal_positions() {
        for y in vertical_positions() {
            cells.push((x, y));
        }
    }
    cells
}

#[test]
fn fresh_board_is_empty_everywhere() {
    let board = Board::default();
    for (x, y) in every_cell() {
        assert_eq!(board.get_cell_at(x, y), None);
    }
}

#[test]
fn written_mark_is_read_back_at_every_cell() {
    for mark in [MoveMark::X, MoveMark::O] {
        for (x, y) in every_cell() {
            let mut board = Board::default();
            board.set_cell_at(x, y, mark);
            assert_eq!(board.get_cell_at(x, y), Some(&mark));
            for (x2, y2) in every_cell() {
                if (x2, y2) != (x, y) {
                    assert_eq!(board.get_cell_at(x2, y2), None);
                }
            }
        }
    }
}

#[test]
fn first_write_wins_for_every_pair_of_marks() {
    for m1 in [MoveMark::X, MoveMark::O] {
        for m2 in [MoveMark::X, MoveMark::O] {
            for (x, y) in every_cell() {
                let mut board = Board::default();
                board.set_cell_at(x, y, m1);
                board.set_cell_at(x, y, m2);
                assert_eq!(board.get_cell_at(x, y), Some(&m1));
            }
        }
    }
}

#[test]
fn turns_alternate_from_cross() {
    let mut game = Game::default();
    for n in 1..=101u32 {
        let mark = game.next_mark();
        let expected = if n % 2 == 1 { MoveMark::X } else { MoveMark::O };
        assert_eq!(mark, expected);
    }
}

#[test]
fn fetch_move_targets_first_cell_and_takes_a_turn() {
    let mut game = Game::new(Player::Human, Player::Human);
    assert_eq!(game.fetch_move(), (0, MoveMark::X));
    assert_eq!(game.next_mark(), MoveMark::O);
    assert_eq!(game.fetch_move(), (0, MoveMark::X));
}

#[test]
fn taking_turns_leaves_board_and_players_alone() {
    let mut game = Game::new(Player::Human, Player::Computer);
    game.board.set_cell_at(HorizontalPos::Right, VerticalPos::Bottom, MoveMark::O);
    game.next_mark();
    game.fetch_move();
    assert_eq!(game.player_1, Player::Human);
    assert_eq!(game.player_2, Player::Computer);
    assert_eq!(game.board.get_cell_at(HorizontalPos::Right, VerticalPos::Bottom), Some(&MoveMark::O));
    assert_eq!(game.board.get_cell_at(HorizontalPos::Left, VerticalPos::Top), None);
}

#[test]
fn default_game_has_two_computers() {
    let ui = Ui::default();
    assert_eq!(ui.game.player_1, Player::Computer);
    assert_eq!(ui.game.player_2, Player::Computer);
}

#[test]
fn positions_come_in_reading_order() {
    assert_eq!(
        horizontal_positions(),
        vec![HorizontalPos::Left, HorizontalPos::Center, HorizontalPos::Right]
    );
    assert_eq!(
        vertical_positions(),
        vec![VerticalPos::Top, VerticalPos::Center, VerticalPos::Bottom]
    );
}

#[test]
fn render_empty_board_exactly() {
    let ui = Ui::default();
    assert_eq!(ui.show_board(), " | | \n-----\n | | \n-----\n | | ");
}

#[test]
fn render_board_with_two_marks_exactly() {
    let mut ui = Ui::default();
    ui.game.board.set_cell_at(HorizontalPos::Left, VerticalPos::Top, MoveMark::X);
    ui.game.board.set_cell_at(HorizontalPos::Center, VerticalPos::Center, MoveMark::O);
    assert_eq!(ui.show_board(), "X| | \n-----\n |O| \n-----\n | | ");
}

#[test]
fn render_full_board_exactly() {
    let mut ui = Ui::default();
    let marks = [MoveMark::X, MoveMark::O];
    let mut k = 0;
    for y in vertical_positions() {
        for x in horizontal_positions() {
            ui.game.board.set_cell_at(x, y, marks[k % 2]);
            k += 1;
        }
    }
    assert_eq!(ui.show_row(VerticalPos::Center), "O|X|O");
    assert_eq!(ui.show_board(), "X|O|X\n-----\nO|X|O\n-----\nX|O|X");
}

#[test]
fn show_cell_of_nought_and_of_blank() {
    let mut ui = Ui::default();
    ui.game.board.set_cell_at(HorizontalPos::Right, VerticalPos::Bottom, MoveMark::O);
    assert_eq!(ui.show_cell(HorizontalPos::Right, VerticalPos::Bottom), "O");
    assert_eq!(ui.show_cell(HorizontalPos::Right, VerticalPos::Top), " ");
}

#[test]
fn join_places_separator_between_parts_only() {
    let none: Vec<String> = Vec::new();
    assert_eq!(join(&none, ", "), "");
    assert_eq!(join(&vec!["a".to_string()], ", "), "a");
    let parts = vec!["a".to_string(), "".to_string(), "bc".to_string()];
    assert_eq!(join(&parts, ", "), "a, , bc");
}

#[test]
fn parse_each_menu_choice() {
    let ui = Ui::default();
    assert_eq!(ui.parse_game_players("1"), Ok((Player::Human, Player::Computer)));
    assert_eq!(ui.parse_game_players("2"), Ok((Player::Human, Player::Human)));
    assert_eq!(ui.parse_game_players("3"), Ok((Player::Computer, Player::Computer)));
}

#[test]
fn parse_refuses_near_misses() {
    let ui = Ui::default();
    for input in ["0", "4", "11", " 1", "1 ", "one", "\u{e9}"] {
        assert_eq!(
            ui.parse_game_players(input),
            Err(format!("Unable to parse game players from string index: {}", input))
        );
    }
}

#[test]
fn parse_empty_choice_gives_bare_message() {
    let ui = Ui::default();
    assert_eq!(
        ui.parse_game_players(""),
        Err("Unable to parse game players from string index: ".to_string())
    );
}
