use tetris_rust::block::Block;
use tetris_rust::decisions::best_actions;
use tetris_rust::strategy::{AlwaysDrop, Fixed, NoGaps, Weighted};
use tetris_rust::shape::Shape;
use tetris_rust::strategy::Strategy;
use tetris_rust::tetris::Action::{Drop, Left, Right, Rotate};
use tetris_rust::tetris::Tetris;

fn tetris_with_only_j_shape() -> Tetris {
    Tetris::new_with_custom_shapes(vec![Shape::j()])
}

fn has_blocks_at(tetris: &Tetris, blocks: &[Block; 4]) -> bool {
    blocks.iter().all(|block| tetris.block_at(block.x(), block.y()))
}

/// Scores 1 the boards that have all four cells occupied, 0 the others.
struct TestStrategy {
    blocks: [Block; 4],
}

impl Strategy for TestStrategy {
    fn score(&self, outcome: &Tetris) -> i64 {
        if has_blocks_at(outcome, &self.blocks) {
            1
        } else {
            0
        }
    }
}

#[test]
fn mod_should_just_drop_when_that_is_best() {
    // given
    let tetris = tetris_with_only_j_shape();

    // and
    let strategy = TestStrategy {
        blocks: [
            Block::new(3, 18),
            Block::new(3, 19),
            Block::new(4, 19),
            Block::new(5, 19),
        ],
    };

    // when
    let actions = best_actions(&strategy, &tetris);
    let actions = actions.0;

    // then
    let expected_actions = vec![Drop];
    assert_eq!(expected_actions[..], actions[..]);
}

#[test]
fn mod_should_partially_rotate_and_drop_when_that_is_best() {
    // given
    let tetris = tetris_with_only_j_shape();

    // and
    let strategy = TestStrategy {
        blocks: [
            Block::new(4, 17),
            Block::new(5, 17),
            Block::new(4, 18),
            Block::new(4, 19),
        ],
    };

    // when
    let actions = best_actions(&strategy, &tetris);
    let actions = actions.0;

    // then
    let expected_actions = vec![Rotate, Drop];
    assert_eq!(expected_actions[..], actions[..]);
}

#[test]
fn mod_should_fully_rotate_and_drop_when_that_is_best() {
    // given
    let tetris = tetris_with_only_j_shape();

    // and
    let strategy = TestStrategy {
        blocks: [
            Block::new(4, 17),
            Block::new(3, 19),
            Block::new(4, 18),
            Block::new(4, 19),
        ],
    };

    // when
    let actions = best_actions(&strategy, &tetris);
    let actions = actions.0;

    // then
    let expected_actions = vec![Rotate, Rotate, Rotate, Drop];
    assert_eq!(expected_actions[..], actions[..]);
}

#[test]
fn mod_should_move_part_the_way_left_when_that_is_best() {
    // given
    let tetris = tetris_with_only_j_shape();

    // and
    let strategy = TestStrategy {
        blocks: [
            Block::new(2, 18),
            Block::new(2, 19),
            Block::new(3, 19),
            Block::new(4, 19),
        ],
    };

    // when
    let actions = best_actions(&strategy, &tetris);
    let actions = actions.0;

    // then
    let expected_actions = vec![Left, Drop];
    assert_eq!(expected_actions[..], actions[..]);
}

#[test]
fn mod_should_move_all_the_way_left_when_that_is_best() {
    // given
    let tetris = tetris_with_only_j_shape();

    // and
    let strategy = TestStrategy {
        blocks: [
            Block::new(0, 18),
            Block::new(0, 19),
            Block::new(1, 19),
            Block::new(2, 19),
        ],
    };

    // when
    let actions = best_actions(&strategy, &tetris);
    let actions = actions.0;

    // then
    let expected_actions = vec![Left, Left, Left, Drop];
    assert_eq!(expected_actions[..], actions[..]);
}

#[test]
fn mod_should_move_part_the_way_right_when_that_is_best() {
    // given
    let tetris = tetris_with_only_j_shape();

    // and
    let strategy = TestStrategy {
        blocks: [
            Block::new(4, 18),
            Block::new(4, 19),
            Block::new(5, 19),
            Block::new(6, 19),
        ],
    };

    // when
    let actions = best_actions(&strategy, &tetris);
    let actions = actions.0;

    // then
    let expected_actions = vec![Right, Drop];
    assert_eq!(expected_actions[..], actions[..]);
}

#[test]
fn mod_should_move_all_the_way_right_when_that_is_best() {
    // given
    let tetris = tetris_with_only_j_shape();

    // and
    let strategy = TestStrategy {
        blocks: [
            Block::new(7, 18),
            Block::new(7, 19),
            Block::new(8, 19),
            Block::new(9, 19),
        ],
    };

    // when
    let actions = best_actions(&strategy, &tetris);
    let actions = actions.0;

    // then
    let expected_actions = vec![Right, Right, Right, Right, Drop];
    assert_eq!(expected_actions[..], actions[..]);
}

#[test]
fn mod_should_rotate_and_move_left_when_that_is_best() {
    // given
    let tetris = tetris_with_only_j_shape();

    // and
    let strategy = TestStrategy {
        blocks: [
            Block::new(0, 17),
            Block::new(1, 17),
            Block::new(0, 18),
            Block::new(0, 19),
        ],
    };

    // when
    let actions = best_actions(&strategy, &tetris);
    let actions = actions.0;

    // then
    let expected_actions = vec![Rotate, Left, Left, Left, Left, Drop];
    assert_eq!(expected_actions[..], actions[..]);
}

#[test]
fn mod_should_rotate_and_move_right_when_that_is_best() {
    // given
    let tetris = tetris_with_only_j_shape();

    // and
    let strategy = TestStrategy {
        blocks: [
            Block::new(8, 17),
            Block::new(9, 17),
            Block::new(8, 18),
            Block::new(8, 19),
        ],
    };

    // when
    let actions = best_actions(&strategy, &tetris);
    let actions = actions.0;

    // then
    let expected_actions = vec![Rotate, Right, Right, Right, Right, Drop];
    assert_eq!(expected_actions[..], actions[..]);
}

#[test]
fn scores_of_an_empty_board() {
    let tetris = tetris_with_only_j_shape();
    assert_eq!(0, AlwaysDrop::new().score(&tetris));
    assert_eq!(20 + 100 * 200 + 100000 * 200, Fixed::new().score(&tetris));
    assert_eq!(20 + 100 * 200, NoGaps::new().score(&tetris));
    assert_eq!(200 * 500 + 200 * 15 + 200 * 50 + 200 * 100, Weighted::new().score(&tetris));
}

#[test]
fn scores_after_a_gap() {
    let mut tetris = tetris_with_only_j_shape();
    tetris.input(&Rotate);
    tetris.input(&Rotate);
    tetris.input(&Drop);
    // two gaps under the piece, a stack of height 2, no deep hole
    assert_eq!(18 + 100 * 200 + 100000 * 198, Fixed::new().score(&tetris));
    assert_eq!(18 + 100 * 198, NoGaps::new().score(&tetris));
    // neighbour differences: 2 + 0 + 0 + 2
    assert_eq!(200 * 500 + 196 * 15 + 200 * 50 + 198 * 100, Weighted::new().score(&tetris));
}

#[test]
fn weighted_penalises_tall_middle_columns() {
    let mut tetris = tetris_with_only_j_shape();
    for _ in 0..8 {
        tetris.input(&Drop);
    }
    // column 3 is 16 high, columns 4 and 5 are 15 high with gaps below each piece
    let analysis = tetris_rust::analysis::analyse(&tetris);
    assert_eq!(16, analysis.central_columns_max_height);
    let expected = (200 - 16) * 500
        + (200 - analysis.total_neighbour_diff as i64) * 15
        + (200 - analysis.low_edges as i64) * 50
        + (200 - analysis.gaps as i64) * 100;
    assert_eq!(expected, Weighted::new().score(&tetris));
}
