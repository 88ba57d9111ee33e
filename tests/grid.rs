use tetris_rust::grid::{complete_lines, row_is_full, Grid};

fn fill_row(grid: &mut Grid, y: usize) {
    for x in 0..10 {
        grid[x][y] = true;
    }
}

fn count(grid: &Grid) -> usize {
    grid.iter().map(|column| column.iter().filter(|cell| **cell).count()).sum()
}

#[test]
fn no_complete_row_leaves_the_grid_alone() {
    let mut grid = [[false; 20]; 10];
    grid[0][19] = true;
    grid[5][12] = true;
    assert_eq!(grid, complete_lines(&grid));
}

#[test]
fn one_complete_row_moves_the_rows_above_down() {
    let mut grid = [[false; 20]; 10];
    fill_row(&mut grid, 19);
    grid[2][18] = true;
    grid[7][10] = true;
    let cleared = complete_lines(&grid);
    assert_eq!(count(&grid) - 10, count(&cleared));
    assert!(cleared[2][19]);
    assert!(cleared[7][11]);
    assert_eq!(2, count(&cleared));
}

#[test]
fn non_adjacent_complete_rows_are_all_removed() {
    let mut grid = [[false; 20]; 10];
    fill_row(&mut grid, 19);
    fill_row(&mut grid, 17);
    fill_row(&mut grid, 5);
    grid[1][18] = true;
    grid[3][16] = true;
    grid[4][4] = true;
    grid[9][0] = true;
    let cleared = complete_lines(&grid);
    assert_eq!(count(&grid) - 30, count(&cleared));
    // row 18 drops by one, row 16 by two, rows 0 to 4 by three
    assert!(cleared[1][19]);
    assert!(cleared[3][18]);
    assert!(cleared[4][7]);
    assert!(cleared[9][3]);
    assert_eq!(4, count(&cleared));
    for y in 0..20 {
        assert!(!row_is_full(&cleared, y));
    }
}

#[test]
fn clearing_twice_is_clearing_once() {
    let mut grid = [[false; 20]; 10];
    fill_row(&mut grid, 19);
    fill_row(&mut grid, 18);
    grid[6][17] = true;
    let once = complete_lines(&grid);
    assert_eq!(once, complete_lines(&once));
    assert!(once[6][19]);
}

#[test]
fn a_full_grid_clears_to_an_empty_one() {
    let grid = [[true; 20]; 10];
    assert_eq!([[false; 20]; 10], complete_lines(&grid));
}

#[test]
fn row_fullness() {
    let mut grid = [[false; 20]; 10];
    fill_row(&mut grid, 3);
    grid[4][8] = true;
    assert!(row_is_full(&grid, 3));
    assert!(!row_is_full(&grid, 8));
}
