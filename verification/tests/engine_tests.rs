//! Tests of the game engine: collision handling, commit, line clearing,
//! scoring, leveling, gravity timing, and the tick state machine.

use tetris_core::engine::{
    GameAction, InputEvent, OutputEvent, Tetris, drop_interval_nanos, from_frames,
};
use tetris_core::field::Cell;
use tetris_core::tetromino::{Tetromino, TetrominoType};

fn piece_at(kind: TetrominoType, rotation: usize, x: i32, y: i32) -> Tetromino {
    Tetromino { tetromino_type: kind, rotation, position: (x, y) }
}

fn fill_row(t: &mut Tetris, y: usize) {
    for x in 0..10 {
        t.set_cell(x, y, Cell::Block(TetrominoType::Line));
    }
}

#[test]
fn new_engine_defaults() {
    let t = Tetris::new(0);
    assert_eq!(t.get_score(), 0);
    assert_eq!(t.get_level(), 0);
    assert_eq!(t.get_lines_to_clear_before_next_level(), 10);
    for x in 0..10 {
        for y in 0..20 {
            assert!(matches!(t.get_cell(x, y), Cell::Empty));
        }
    }
    assert_eq!(t.get_current_tetromino().position, (5, 20));
    assert_eq!(t.get_current_tetromino().rotation, 0);
}

#[test]
fn new_engine_lines_to_clear_scales_with_level() {
    assert_eq!(Tetris::new(5).get_lines_to_clear_before_next_level(), 60);
    assert_eq!(Tetris::new(5).get_level(), 5);
}

#[test]
fn legal_move_shifts_the_piece() {
    let mut t = Tetris::new(0);
    t.set_current_tetromino(piece_at(TetrominoType::T, 0, 5, 10));
    let r = t.take_action(GameAction::MoveLeft);
    assert!(matches!(r, OutputEvent::NoOp));
    assert_eq!(t.get_current_tetromino().position, (4, 10));
    let r = t.take_action(GameAction::MoveDown);
    assert!(matches!(r, OutputEvent::NoOp));
    assert_eq!(t.get_current_tetromino().position, (4, 9));
    let r = t.take_action(GameAction::MoveRight);
    assert!(matches!(r, OutputEvent::NoOp));
    assert_eq!(t.get_current_tetromino().position, (5, 9));
}

#[test]
fn collision_with_block_rolls_back_horizontal_move() {
    let mut t = Tetris::new(0);
    t.set_cell(3, 10, Cell::Block(TetrominoType::Z));
    t.set_current_tetromino(piece_at(TetrominoType::T, 0, 5, 10));
    let r = t.take_action(GameAction::MoveLeft);
    assert!(matches!(r, OutputEvent::NoOp));
    assert_eq!(t.get_current_tetromino().position, (5, 10));
    assert_eq!(t.get_current_tetromino().rotation, 0);
}

#[test]
fn move_into_wall_is_rejected() {
    let mut t = Tetris::new(0);
    t.set_current_tetromino(piece_at(TetrominoType::T, 0, 8, 10));
    let r = t.take_action(GameAction::MoveRight);
    assert!(matches!(r, OutputEvent::NoOp));
    assert_eq!(t.get_current_tetromino().position, (8, 10));
}

#[test]
fn illegal_rotation_is_rejected_wholesale() {
    let mut t = Tetris::new(0);
    t.set_current_tetromino(piece_at(TetrominoType::Line, 0, 0, 10));
    let r = t.take_action(GameAction::Rotate);
    assert!(matches!(r, OutputEvent::NoOp));
    assert_eq!(t.get_current_tetromino().rotation, 0);
    assert_eq!(t.get_current_tetromino().position, (0, 10));
}

#[test]
fn legal_rotation_advances_state() {
    let mut t = Tetris::new(0);
    t.set_current_tetromino(piece_at(TetrominoType::Line, 0, 5, 10));
    let r = t.take_action(GameAction::Rotate);
    assert!(matches!(r, OutputEvent::NoOp));
    assert_eq!(t.get_current_tetromino().rotation, 1);
}

#[test]
fn blocked_descent_commits_the_piece() {
    let mut t = Tetris::new(0);
    t.set_current_tetromino(piece_at(TetrominoType::Square, 0, 5, 0));
    let r = t.take_action(GameAction::MoveDown);
    assert!(matches!(r, OutputEvent::NoOp));
    assert!(matches!(t.get_cell(5, 0), Cell::Block(TetrominoType::Square)));
    assert!(matches!(t.get_cell(5, 1), Cell::Block(TetrominoType::Square)));
    assert!(matches!(t.get_cell(6, 0), Cell::Block(TetrominoType::Square)));
    assert!(matches!(t.get_cell(6, 1), Cell::Block(TetrominoType::Square)));
    assert!(matches!(t.get_cell(4, 0), Cell::Empty));
    assert_eq!(t.get_score(), 0);
    // a fresh piece spawned at the anchor
    assert_eq!(t.get_current_tetromino().position, (5, 20));
    assert_eq!(t.get_current_tetromino().rotation, 0);
}

#[test]
fn landing_on_a_block_commits_above_it() {
    let mut t = Tetris::new(0);
    t.set_cell(5, 0, Cell::Block(TetrominoType::Line));
    t.set_cell(6, 0, Cell::Block(TetrominoType::Line));
    t.set_current_tetromino(piece_at(TetrominoType::Square, 0, 5, 1));
    let r = t.take_action(GameAction::MoveDown);
    assert!(matches!(r, OutputEvent::NoOp));
    assert!(matches!(t.get_cell(5, 1), Cell::Block(TetrominoType::Square)));
    assert!(matches!(t.get_cell(5, 2), Cell::Block(TetrominoType::Square)));
    assert!(matches!(t.get_cell(6, 1), Cell::Block(TetrominoType::Square)));
    assert!(matches!(t.get_cell(6, 2), Cell::Block(TetrominoType::Square)));
}

#[test]
fn line_clear_removes_rows_and_compacts() {
    let mut t = Tetris::new(0);
    fill_row(&mut t, 3);
    fill_row(&mut t, 7);
    for y in 0..20 {
        if y != 3 && y != 7 {
            t.set_cell(0, y, Cell::Block(TetrominoType::S));
        }
    }
    t.clear_lines();
    assert_eq!(t.get_score(), 100);
    assert_eq!(t.get_level(), 0);
    assert_eq!(t.get_lines_to_clear_before_next_level(), 8);
    // the 18 partially occupied rows settled to the bottom ...
    for y in 0..18 {
        assert!(matches!(t.get_cell(0, y), Cell::Block(TetrominoType::S)));
        for x in 1..10 {
            assert!(matches!(t.get_cell(x, y), Cell::Empty));
        }
    }
    // ... and two empty rows were appended at the top
    for y in 18..20 {
        for x in 0..10 {
            assert!(matches!(t.get_cell(x, y), Cell::Empty));
        }
    }
}

#[test]
fn line_clear_scores_by_count_and_level() {
    // single rows at level 0: 40 points each
    let mut t = Tetris::new(0);
    fill_row(&mut t, 0);
    t.clear_lines();
    assert_eq!(t.get_score(), 40);
    // three rows at once: 300 points
    fill_row(&mut t, 0);
    fill_row(&mut t, 1);
    fill_row(&mut t, 2);
    t.clear_lines();
    assert_eq!(t.get_score(), 340);
    // the multiplier is (level + 1)
    let mut t5 = Tetris::new(5);
    fill_row(&mut t5, 9);
    fill_row(&mut t5, 10);
    t5.clear_lines();
    assert_eq!(t5.get_score(), 600);
}

#[test]
fn clear_with_no_complete_rows_changes_nothing() {
    let mut t = Tetris::new(0);
    t.set_cell(4, 2, Cell::Block(TetrominoType::J));
    t.clear_lines();
    assert_eq!(t.get_score(), 0);
    assert_eq!(t.get_lines_to_clear_before_next_level(), 10);
    assert!(matches!(t.get_cell(4, 2), Cell::Block(TetrominoType::J)));
}

#[test]
fn level_up_boundary_is_strict() {
    let mut t = Tetris::new(0);
    // seven single clears bring the counter from 10 down to 3
    for _ in 0..7 {
        fill_row(&mut t, 0);
        t.clear_lines();
    }
    assert_eq!(t.get_lines_to_clear_before_next_level(), 3);
    assert_eq!(t.get_level(), 0);
    assert_eq!(t.get_score(), 280);
    // a four-row clear exceeds the remaining 3: level up, counter resets
    for y in 0..4 {
        fill_row(&mut t, y);
    }
    t.clear_lines();
    assert_eq!(t.get_level(), 1);
    assert_eq!(t.get_lines_to_clear_before_next_level(), 10);
    assert_eq!(t.get_score(), 280 + 1200);
}

#[test]
fn clear_equal_to_counter_does_not_level_up() {
    let mut t = Tetris::new(0);
    // bring the counter down to 2
    for _ in 0..8 {
        fill_row(&mut t, 0);
        t.clear_lines();
    }
    assert_eq!(t.get_lines_to_clear_before_next_level(), 2);
    // clearing exactly 2 rows does not exceed the counter: no level-up
    fill_row(&mut t, 0);
    fill_row(&mut t, 1);
    t.clear_lines();
    assert_eq!(t.get_level(), 0);
    assert_eq!(t.get_lines_to_clear_before_next_level(), 0);
}

#[test]
fn commit_above_ceiling_is_game_over() {
    let mut t = Tetris::new(0);
    t.set_cell(5, 18, Cell::Block(TetrominoType::T));
    t.set_current_tetromino(piece_at(TetrominoType::Line, 0, 5, 20));
    let r = t.take_action(GameAction::MoveDown);
    assert!(matches!(r, OutputEvent::Exit));
    // the field was left unmodified for that commit
    for y in 19..20 {
        assert!(matches!(t.get_cell(5, y), Cell::Empty));
    }
    assert!(matches!(t.get_cell(5, 18), Cell::Block(TetrominoType::T)));
    assert_eq!(t.get_score(), 0);
    assert_eq!(t.get_level(), 0);
}

#[test]
fn end_to_end_drop_on_empty_field() {
    let mut t = Tetris::new(0);
    t.set_current_tetromino(piece_at(TetrominoType::Line, 0, 5, 20));
    for _ in 0..20 {
        t.recieve_event(InputEvent::TakeAction(GameAction::MoveDown));
    }
    let r = t.game_tick(0);
    assert!(matches!(r, OutputEvent::NoOp));
    // the piece locked at the bottom of its column
    for y in 0..4 {
        assert!(matches!(t.get_cell(5, y), Cell::Block(TetrominoType::Line)));
    }
    for y in 4..20 {
        assert!(matches!(t.get_cell(5, y), Cell::Empty));
    }
    assert_eq!(t.get_score(), 0);
    // a new piece spawned at the anchor
    assert_eq!(t.get_current_tetromino().position, (5, 20));
}

#[test]
fn actions_apply_in_arrival_order() {
    let mut t = Tetris::new(0);
    t.set_current_tetromino(piece_at(TetrominoType::T, 0, 5, 10));
    t.recieve_event(InputEvent::TakeAction(GameAction::MoveLeft));
    t.recieve_event(InputEvent::TakeAction(GameAction::MoveLeft));
    t.recieve_event(InputEvent::TakeAction(GameAction::MoveRight));
    let r = t.game_tick(0);
    assert!(matches!(r, OutputEvent::NoOp));
    assert_eq!(t.get_current_tetromino().position, (4, 10));
    // the queue was drained: another tick moves nothing
    let _ = t.game_tick(0);
    assert_eq!(t.get_current_tetromino().position, (4, 10));
}

#[test]
fn game_over_propagates_through_a_tick() {
    let mut t = Tetris::new(0);
    t.set_cell(5, 18, Cell::Block(TetrominoType::T));
    t.set_current_tetromino(piece_at(TetrominoType::Line, 0, 5, 20));
    t.recieve_event(InputEvent::TakeAction(GameAction::MoveDown));
    let r = t.game_tick(0);
    assert!(matches!(r, OutputEvent::Exit));
    assert!(matches!(t.get_cell(5, 19), Cell::Empty));
}

#[test]
fn quit_signal_exits_every_tick() {
    let mut t = Tetris::new(0);
    t.recieve_event(InputEvent::Quit);
    assert!(matches!(t.game_tick(0), OutputEvent::Exit));
    assert!(matches!(t.game_tick(0), OutputEvent::Exit));
    assert_eq!(t.get_score(), 0);
}

#[test]
fn gravity_moves_the_piece_after_the_drop_interval() {
    let mut t = Tetris::new(0);
    t.set_current_tetromino(piece_at(TetrominoType::Square, 0, 5, 18));
    // level 0 drops every 53 frames = 883333298 ns
    let r = t.game_tick(900_000_000);
    assert!(matches!(r, OutputEvent::NoOp));
    assert_eq!(t.get_current_tetromino().position, (5, 17));
    // the accumulator was reset: no second descent right away
    let _ = t.game_tick(0);
    assert_eq!(t.get_current_tetromino().position, (5, 17));
}

#[test]
fn gravity_accumulates_elapsed_time_across_ticks() {
    let mut t = Tetris::new(0);
    t.set_current_tetromino(piece_at(TetrominoType::Square, 0, 5, 18));
    let _ = t.game_tick(500_000_000);
    assert_eq!(t.get_current_tetromino().position, (5, 18));
    let _ = t.game_tick(500_000_000);
    assert_eq!(t.get_current_tetromino().position, (5, 17));
}

#[test]
fn drop_intervals_follow_the_gravity_curve() {
    assert_eq!(from_frames(1), 16_666_666);
    assert_eq!(drop_interval_nanos(0), 53 * 16_666_666);
    assert_eq!(drop_interval_nanos(1), 49 * 16_666_666);
    assert_eq!(drop_interval_nanos(9), 11 * 16_666_666);
    assert_eq!(drop_interval_nanos(19), 4 * 16_666_666);
    assert_eq!(drop_interval_nanos(20), 3 * 16_666_666);
    // levels past the table keep the fastest value
    assert_eq!(drop_interval_nanos(21), 3 * 16_666_666);
    // the curve never speeds up out of order
    for level in 0..20 {
        assert!(drop_interval_nanos(level + 1) <= drop_interval_nanos(level));
    }
}

#[test]
fn queries_are_idempotent() {
    let mut t = Tetris::new(0);
    t.set_cell(2, 2, Cell::Block(TetrominoType::L));
    t.set_current_tetromino(piece_at(TetrominoType::T, 1, 4, 9));
    assert_eq!(t.get_score(), t.get_score());
    assert_eq!(t.get_level(), t.get_level());
    assert_eq!(
        t.get_lines_to_clear_before_next_level(),
        t.get_lines_to_clear_before_next_level(),
    );
    assert!(matches!(t.get_cell(2, 2), Cell::Block(TetrominoType::L)));
    assert!(matches!(t.get_cell(2, 2), Cell::Block(TetrominoType::L)));
    let p1 = (t.get_current_tetromino().position, t.get_current_tetromino().rotation);
    let p2 = (t.get_current_tetromino().position, t.get_current_tetromino().rotation);
    assert_eq!(p1, p2);
}

#[test]
fn cells_default_to_empty() {
    assert!(matches!(Cell::default(), Cell::Empty));
    assert!(!Cell::default().is_block());
    assert!(Cell::Block(TetrominoType::S).is_block());
}

#[test]
fn set_cell_changes_only_that_cell() {
    let mut t = Tetris::new(0);
    t.set_cell(7, 11, Cell::Block(TetrominoType::J));
    for x in 0..10 {
        for y in 0..20 {
            if (x, y) == (7, 11) {
                assert!(matches!(t.get_cell(x, y), Cell::Block(TetrominoType::J)));
            } else {
                assert!(matches!(t.get_cell(x, y), Cell::Empty));
            }
        }
    }
}
