use fanz::cart::Sprite;
use fanz::consolebuiltins::ZColor;
use fanz::editor::{CodeWindow, ObjectSelector, SpritesSelector, Tool};
use fanz::grid::{Grid, Resize};

#[test]
fn filled_with_builds_the_rectangle() {
    let g: Grid<u8> = Grid::filled_with(7, 2, 3);
    assert_eq!(g.num_rows(), 2);
    assert_eq!(g.num_columns(), 3);
    assert_eq!(g.row_len(), 3);
    assert_eq!(g.column_len(), 2);
    for row in 0..2 {
        for col in 0..3 {
            assert_eq!(g.get(row, col), Some(&7));
        }
    }
}

#[test]
fn get_outside_the_grid_is_none() {
    let g: Grid<u8> = Grid::filled_with(0, 2, 3);
    assert_eq!(g.get(2, 0), None);
    assert_eq!(g.get(0, 3), None);
}

#[test]
fn set_replaces_one_cell() {
    let mut g: Grid<u8> = Grid::filled_with(0, 2, 2);
    g.set(1, 0, 9);
    assert_eq!(g.get(1, 0), Some(&9));
    assert_eq!(g.get(0, 0), Some(&0));
    assert_eq!(g.get(1, 1), Some(&0));
}

#[test]
fn addrow_appends_a_filled_row() {
    let mut g: Grid<u8> = Grid::filled_with(1, 1, 2);
    g.addrow(5);
    assert_eq!(g.num_rows(), 2);
    assert_eq!(g.num_columns(), 2);
    assert_eq!(g.get(1, 0), Some(&5));
    assert_eq!(g.get(1, 1), Some(&5));
    assert_eq!(g.get(0, 0), Some(&1));
}

#[test]
fn addcolumn_widens_every_row() {
    let mut g: Grid<u8> = Grid::filled_with(1, 2, 1);
    g.addcolumn(8);
    assert_eq!(g.num_rows(), 2);
    assert_eq!(g.num_columns(), 2);
    assert_eq!(g.get(0, 1), Some(&8));
    assert_eq!(g.get(1, 1), Some(&8));
    assert_eq!(g.get(0, 0), Some(&1));
}

#[test]
fn poprow_removes_and_returns_the_bottom_row() {
    let mut g: Grid<u8> = Grid::filled_with(0, 2, 2);
    g.set(1, 0, 3);
    g.set(1, 1, 4);
    let popped = g.poprow();
    assert_eq!(popped, vec![3, 4]);
    assert_eq!(g.num_rows(), 1);
    assert_eq!(g.num_columns(), 2);
}

#[test]
fn popcolumn_removes_and_returns_the_rightmost_column() {
    let mut g: Grid<u8> = Grid::filled_with(0, 2, 2);
    g.set(0, 1, 5);
    g.set(1, 1, 6);
    let popped = g.popcolumn();
    assert_eq!(popped, vec![5, 6]);
    assert_eq!(g.num_rows(), 2);
    assert_eq!(g.num_columns(), 1);
    assert_eq!(g.get(0, 0), Some(&0));
}

#[test]
fn resize_round_trip_restores_the_shape() {
    let mut g: Grid<u8> = Grid::filled_with(2, 2, 2);
    g.addrow(0);
    g.addcolumn(0);
    g.popcolumn();
    g.poprow();
    assert_eq!(g.num_rows(), 2);
    assert_eq!(g.num_columns(), 2);
    assert_eq!(g.get(0, 0), Some(&2));
    assert_eq!(g.get(1, 1), Some(&2));
}

#[test]
fn sprite_new_is_transparent_eight_by_eight() {
    let s = Sprite::new();
    assert_eq!(s.data.num_rows(), 8);
    assert_eq!(s.data.num_columns(), 8);
    assert_eq!(s.data.get(0, 0), Some(&None));
    assert_eq!(s.data.get(7, 7), Some(&None::<ZColor>));
}

#[test]
fn code_window_starts_closed() {
    let w = CodeWindow::default();
    assert!(!w.enabled);
}

#[test]
fn default_tool_is_the_pencil() {
    assert_eq!(Tool::default(), Tool::Pencil);
}

#[test]
fn tab_titles() {
    assert_eq!(SpritesSelector.name(), "Sprites");
    assert_eq!(ObjectSelector.name(), "Objects");
}
