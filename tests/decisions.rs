use tetris_rust::block::Block;
use tetris_rust::decisions::{best_actions, Decisions};
use tetris_rust::strategy::{AlwaysDrop, Fixed, NoGaps, Weighted};
use tetris_rust::tetris::ActionResult;
use tetris_rust::shape::Shape;
use tetris_rust::strategy::Strategy;
use tetris_rust::tetris::Action::{Drop, Left, Right, Rotate};
use tetris_rust::tetris::Tetris;

fn tetris_with_only_j_shape() -> Tetris {
    Tetris::new_with_custom_shapes(vec![Shape::j()])
}

fn has_blocks_at(tetris: &Tetris, blocks: &[Block; 4]) -> bool {
    blocks.iter().all(|block| tetris.block_at(block.x(), block.y()))
}

/// Scores 1 the boards that have all four cells occupied, 0 the others.
struct TestStrategy {
    blocks: [Block; 4],
}

impl Strategy for TestStrategy {
    fn score(&self, outcome: &Tetris) -> i64 {
        if has_blocks_at(outcome, &self.blocks) {
            1
        } else {
            0
        }
    }
}

#[test]
fn should_just_drop_when_that_is_best() {
    // given
    let tetris = tetris_with_only_j_shape();

    // and
    let strategy = TestStrategy {
        blocks: [
            Block::new(3, 18),
            Block::new(3, 19),
            Block::new(4, 19),
            Block::new(5, 19),
        ],
    };

    // when
    let decisions = Decisions::new();
    let actions = decisions.choose_actions(&tetris, &strategy);

    // then
    let expected_actions = vec![Drop];
    assert_eq!(expected_actions[..], actions[..]);
}

#[test]
fn should_partially_rotate_and_drop_when_that_is_best() {
    // given
    let tetris = tetris_with_only_j_shape();

    // and
    let strategy = TestStrategy {
        blocks: [
            Block::new(4, 17),
            Block::new(5, 17),
            Block::new(4, 18),
            Block::new(4, 19),
        ],
    };

    // when
    let decisions = Decisions::new();
    let actions = decisions.choose_actions(&tetris, &strategy);

    // then
    let expected_actions = vec![Rotate, Drop];
    assert_eq!(expected_actions[..], actions[..]);
}

#[test]
fn should_fully_rotate_and_drop_when_that_is_best() {
    // given
    let tetris = tetris_with_only_j_shape();

    // and
    let strategy = TestStrategy {
        blocks: [
            Block::new(4, 17),
            Block::new(3, 19),
            Block::new(4, 18),
            Block::new(4, 19),
        ],
    };

    // when
    let decisions = Decisions::new();
    let actions = decisions.choose_actions(&tetris, &strategy);

    // then
    let expected_actions = vec![Rotate, Rotate, Rotate, Drop];
    assert_eq!(expected_actions[..], actions[..]);
}

#[test]
fn should_move_part_the_way_left_when_that_is_best() {
    // given
    let tetris = tetris_with_only_j_shape();

    // and
    let strategy = TestStrategy {
        blocks: [
            Block::new(2, 18),
            Block::new(2, 19),
            Block::new(3, 19),
            Block::new(4, 19),
        ],
    };

    // when
    let decisions = Decisions::new();
    let actions = decisions.choose_actions(&tetris, &strategy);

    // then
    let expected_actions = vec![Left, Drop];
    assert_eq!(expected_actions[..], actions[..]);
}

#[test]
fn should_move_all_the_way_left_when_that_is_best() {
    // given
    let tetris = tetris_with_only_j_shape();

    // and
    let strategy = TestStrategy {
        blocks: [
            Block::new(0, 18),
            Block::new(0, 19),
            Block::new(1, 19),
            Block::new(2, 19),
        ],
    };

    // when
    let decisions = Decisions::new();
    let actions = decisions.choose_actions(&tetris, &strategy);

    // then
    let expected_actions = vec![Left, Left, Left, Drop];
    assert_eq!(expected_actions[..], actions[..]);
}

#[test]
fn should_move_part_the_way_right_when_that_is_best() {
    // given
    let tetris = tetris_with_only_j_shape();

    // and
    let strategy = TestStrategy {
        blocks: [
            Block::new(4, 18),
            Block::new(4, 19),
            Block::new(5, 19),
            Block::new(6, 19),
        ],
    };

    // when
    let decisions = Decisions::new();
    let actions = decisions.choose_actions(&tetris, &strategy);

    // then
    let expected_actions = vec![Right, Drop];
    assert_eq!(expected_actions[..], actions[..]);
}

#[test]
fn should_move_all_the_way_right_when_that_is_best() {
    // given
    let tetris = tetris_with_only_j_shape();

    // and
    let strategy = TestStrategy {
        blocks: [
            Block::new(7, 18),
            Block::new(7, 19),
            Block::new(8, 19),
            Block::new(9, 19),
        ],
    };

    // when
    let decisions = Decisions::new();
    let actions = decisions.choose_actions(&tetris, &strategy);

    // then
    let expected_actions = vec![Right, Right, Right, Right, Drop];
    assert_eq!(expected_actions[..], actions[..]);
}

#[test]
fn should_rotate_and_move_left_when_that_is_best() {
    // given
    let tetris = tetris_with_only_j_shape();

    // and
    let strategy = TestStrategy {
        blocks: [
            Block::new(0, 17),
            Block::new(1, 17),
            Block::new(0, 18),
            Block::new(0, 19),
        ],
    };

    // when
    let decisions = Decisions::new();
    let actions = decisions.choose_actions(&tetris, &strategy);

    // then
    let expected_actions = vec![Rotate, Left, Left, Left, Left, Drop];
    assert_eq!(expected_actions[..], actions[..]);
}

#[test]
fn should_rotate_and_move_right_when_that_is_best() {
    // given
    let tetris = tetris_with_only_j_shape();

    // and
    let strategy = TestStrategy {
        blocks: [
            Block::new(8, 17),
            Block::new(9, 17),
            Block::new(8, 18),
            Block::new(8, 19),
        ],
    };

    // when
    let decisions = Decisions::new();
    let actions = decisions.choose_actions(&tetris, &strategy);

    // then
    let expected_actions = vec![Rotate, Right, Right, Right, Right, Drop];
    assert_eq!(expected_actions[..], actions[..]);
}

fn occupancy(tetris: &Tetris) -> Vec<bool> {
    let mut cells = Vec::new();
    for x in 0..10 {
        for y in 0..20 {
            cells.push(tetris.block_at(x, y));
        }
    }
    cells
}

fn board_with_some_pieces() -> Tetris {
    let mut tetris = tetris_with_only_j_shape();
    for action in [Left, Left, Left, Drop, Rotate, Rotate, Drop, Right, Right, Right, Drop] {
        tetris.input(&action);
    }
    tetris
}

#[test]
fn search_leaves_the_board_alone() {
    let tetris = board_with_some_pieces();
    let before = occupancy(&tetris);
    let dead_before = *tetris.dead_blocks();
    let _ = Decisions::new().choose_actions(&tetris, &Weighted::new());
    let _ = best_actions(&Fixed::new(), &tetris);
    assert_eq!(before, occupancy(&tetris));
    assert_eq!(dead_before, *tetris.dead_blocks());
}

#[test]
fn executing_the_answer_reproduces_its_score() {
    for tetris in [tetris_with_only_j_shape(), board_with_some_pieces()] {
        for (actions, score, rescore) in [
            {
                let (a, s) = best_actions(&Weighted::new(), &tetris);
                let mut copy = tetris.duplicate();
                for action in &a {
                    copy.input(action);
                }
                (a, s, Weighted::new().score(&copy))
            },
            {
                let (a, s) = best_actions(&Fixed::new(), &tetris);
                let mut copy = tetris.duplicate();
                for action in &a {
                    copy.input(action);
                }
                (a, s, Fixed::new().score(&copy))
            },
            {
                let (a, s) = best_actions(&NoGaps::new(), &tetris);
                let mut copy = tetris.duplicate();
                for action in &a {
                    copy.input(action);
                }
                (a, s, NoGaps::new().score(&copy))
            },
        ] {
            assert!(score > 0);
            assert_eq!(Some(&Drop), actions.last());
            assert_eq!(score, rescore);
        }
    }
}

#[test]
fn nothing_above_zero_means_a_plain_drop() {
    let tetris = board_with_some_pieces();
    let (actions, score) = best_actions(&AlwaysDrop::new(), &tetris);
    assert_eq!(vec![Drop], actions);
    assert_eq!(0, score);
}

#[test]
fn ties_keep_the_earliest_candidate() {
    // the square looks the same in every rotation: rotating never beats not rotating
    let tetris = Tetris::new_with_custom_shapes(vec![Shape::o()]);
    let strategy = TestStrategy {
        blocks: [Block::new(0, 18), Block::new(1, 18), Block::new(0, 19), Block::new(1, 19)],
    };
    let actions = Decisions::new().choose_actions(&tetris, &strategy);
    assert_eq!(vec![Left, Left, Left, Left, Drop], actions);
}

#[test]
fn fixed_prefers_no_gaps() {
    let tetris = tetris_with_only_j_shape();
    let (actions, score) = best_actions(&Fixed::new(), &tetris);
    let mut copy = tetris.duplicate();
    for action in &actions {
        assert_ne!(ActionResult::Invalid, copy.input(action));
    }
    assert_eq!(0, tetris_rust::analysis::analyse(&copy).gaps);
    assert_eq!(score, Fixed::new().score(&copy));
}
