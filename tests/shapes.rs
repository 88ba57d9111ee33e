use tetris_rust::block::Block;
use tetris_rust::shape::Shape;

#[test]
fn block_keeps_its_coordinates() {
    let block = Block::new(3, -2);
    assert_eq!(3, block.x());
    assert_eq!(-2, block.y());
}

#[test]
fn pieces_lie_on_the_grid_at_their_spawn_pose() {
    for shape in [Shape::o(), Shape::s(), Shape::z(), Shape::t(), Shape::l(), Shape::j(), Shape::i()] {
        for rotations in 0..4 {
            assert!(!shape.is_off_grid(rotations, 0, 0));
        }
    }
}

#[test]
fn off_grid_on_each_side() {
    let shape = Shape::j();
    assert!(!shape.is_off_grid(0, -3, 0));
    assert!(shape.is_off_grid(0, -4, 0));
    assert!(!shape.is_off_grid(0, 4, 0));
    assert!(shape.is_off_grid(0, 5, 0));
    assert!(!shape.is_off_grid(0, 0, 18));
    assert!(shape.is_off_grid(0, 0, 19));
    assert!(shape.is_off_grid(0, 0, -1));
    assert!(shape.is_off_grid(0, i8::MAX, i8::MIN));
}

#[test]
fn rotation_count_is_taken_modulo_four() {
    let shape = Shape::i();
    for rotations in 0..4 {
        for x in 0..10 {
            for y in 0..20 {
                assert_eq!(
                    shape.has_block_at(x, y, rotations, 1, 2),
                    shape.has_block_at(x, y, rotations + 4, 1, 2)
                );
            }
        }
    }
}

#[test]
fn blocks_at_the_placed_cells() {
    let shape = Shape::t();
    // rotation 1: (4, 0), (4, 1), (4, 2), (5, 1), shifted by (2, 3)
    let cells = [(6, 3), (6, 4), (6, 5), (7, 4)];
    for x in 0..10 {
        for y in 0..20 {
            assert_eq!(cells.contains(&(x, y)), shape.has_block_at(x, y, 1, 2, 3));
        }
    }
    assert!(!shape.has_block_at(i8::MIN, i8::MAX, 1, i8::MAX, i8::MIN));
}

#[test]
fn placing_and_intersecting() {
    let shape = Shape::o();
    let mut grid = [[false; 20]; 10];
    assert!(!shape.intersects(&grid, 0, 0, 18));
    shape.apply_to(&mut grid, 0, 0, 18);
    assert!(grid[4][18] && grid[5][18] && grid[4][19] && grid[5][19]);
    assert_eq!(4, grid.iter().flatten().filter(|cell| **cell).count());
    assert!(shape.intersects(&grid, 0, 1, 17));
    assert!(!shape.intersects(&grid, 0, 2, 17));
}
