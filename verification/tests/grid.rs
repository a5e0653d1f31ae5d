use render_core::game::grid::Grid;

fn numbered() -> Grid<u32, 12, 8, 4, 4, 3> {
    Grid { inner: [0, 1, 2, 3, 10, 11, 12, 13, 20, 21, 22, 23] }
}

#[test]
fn cells_by_column_and_row() {
    let grid = numbered();
    assert_eq!(*grid.get_cell_at_index(0, 0), 0);
    assert_eq!(*grid.get_cell_at_index(3, 0), 3);
    assert_eq!(*grid.get_cell_at_index(1, 2), 21);
    assert_eq!(*grid.index(5), 11);
}

#[test]
fn cells_by_position() {
    let grid = numbered();
    assert_eq!(*grid.get_cell_at_position(0, 0), 0);
    assert_eq!(*grid.get_cell_at_position(7, 3), 0);
    assert_eq!(*grid.get_cell_at_position(8, 4), 11);
    assert_eq!(*grid.get_cell_at_position(31, 11), 23);
}

#[test]
fn cells_can_be_written() {
    let mut grid = numbered();
    *grid.get_cell_at_index_mut(2, 1) = 99;
    *grid.get_cell_at_position_mut(9, 9) = 77;
    *grid.index_mut(0) = 55;
    assert_eq!(grid.inner, [55, 1, 2, 3, 10, 11, 99, 13, 20, 77, 22, 23]);
}

#[test]
fn walk_yields_cells_in_storage_order() {
    let grid = numbered();
    let mut walk = grid.iter();
    let mut seen = Vec::new();
    while let Some((x, y, cell)) = walk.next() {
        seen.push((x, y, *cell));
    }
    assert_eq!(seen.len(), 12);
    assert_eq!(seen[0], (0, 0, 0));
    assert_eq!(seen[3], (3, 0, 3));
    assert_eq!(seen[4], (0, 1, 10));
    assert_eq!(seen[11], (3, 2, 23));
    assert!(walk.next().is_none());
}
