use physics_tetris::board::{block_center, floor_y, left_wall_x, row_index, HALF_BLOCK, UNITS_PER_BLOCK};
use physics_tetris::catalog::TetrominoKind;
use physics_tetris::game::{Game, Offset};
use physics_tetris::movement::{input_axis, BlockPush, MOVEMENT_FORCE, TORQUE};
use physics_tetris::stats::Stats;

fn stats(cleared: u64, lost: u64, lost_tetromino: bool) -> Stats {
    Stats { generated_blocks: 100, cleared_blocks: cleared, lost_blocks: lost, lost_tetromino }
}

fn ratio(s: &Stats) -> f64 {
    let h = s.health();
    h.numerator as f64 / h.denominator as f64
}

/// Centre height of a block resting in `row` of the standard board.
fn row_center_y(row: i64) -> i64 {
    floor_y(20) + row * UNITS_PER_BLOCK + HALF_BLOCK
}

fn lane_center_x(lane: i64) -> i64 {
    left_wall_x(10) + lane * UNITS_PER_BLOCK + HALF_BLOCK
}

fn fill_row(game: &mut Game, row: i64, lanes: i64, asleep: bool) -> Vec<u64> {
    (0..lanes)
        .map(|lane| game.insert_block(TetrominoKind::O, lane_center_x(lane % 10), row_center_y(row), asleep))
        .collect()
}

#[test]
fn health_zero_when_piece_lost() {
    assert_eq!(ratio(&stats(40, 0, true)), 0.0);
    assert_eq!(ratio(&stats(0, 0, true)), 0.0);
    assert!(!stats(40, 0, true).health().is_positive());
}

#[test]
fn health_full_before_anything_cleared() {
    assert_eq!(ratio(&stats(0, 0, false)), 1.0);
    assert!(stats(0, 0, false).health().is_positive());
}

#[test]
fn health_zero_when_lost_before_cleared() {
    assert_eq!(ratio(&stats(0, 3, false)), 0.0);
}

#[test]
fn health_is_one_minus_loss_ratio() {
    let h = stats(40, 10, false).health();
    assert_eq!((h.numerator, h.denominator), (30, 40));
    assert_eq!(ratio(&stats(40, 10, false)), 0.75);
}

#[test]
fn health_may_go_negative() {
    let h = stats(10, 20, false).health();
    assert_eq!((h.numerator, h.denominator), (-10, 10));
    assert!(!h.is_positive());
}

#[test]
fn catalog_layouts_match_table() {
    let l = TetrominoKind::I.layout();
    assert_eq!(l.coords, [(1, 1), (1, 0), (1, -1), (1, -2)]);
    assert_eq!(l.joints, vec![(0, 1), (1, 2), (2, 3)]);
    let l = TetrominoKind::O.layout();
    assert_eq!(l.coords, [(0, 0), (1, 0), (1, -1), (0, -1)]);
    assert_eq!(l.joints, vec![(0, 1), (1, 2), (2, 3), (1, 0)]);
    let l = TetrominoKind::T.layout();
    assert_eq!(l.coords, [(0, 0), (1, 0), (2, 0), (1, -1)]);
    assert_eq!(l.joints, vec![(0, 1), (1, 2), (1, 3)]);
    assert_eq!(TetrominoKind::J.layout().coords, [(1, 0), (1, -1), (1, -2), (0, -2)]);
    assert_eq!(TetrominoKind::L.layout().coords, [(1, 0), (1, -1), (1, -2), (2, -2)]);
    assert_eq!(TetrominoKind::S.layout().coords, [(0, -1), (1, -1), (1, 0), (2, 0)]);
    assert_eq!(TetrominoKind::Z.layout().coords, [(0, 0), (1, 0), (1, -1), (2, -1)]);
}

#[test]
fn catalog_joints_name_existing_offsets() {
    for n in 0..7 {
        let l = TetrominoKind::from_index(n).layout();
        assert_eq!(l.coords.len(), 4);
        for (a, b) in &l.joints {
            assert!(*a < 4 && *b < 4);
        }
    }
}

#[test]
fn kinds_by_index() {
    assert_eq!(TetrominoKind::from_index(0), TetrominoKind::I);
    assert_eq!(TetrominoKind::from_index(5), TetrominoKind::S);
    assert_eq!(TetrominoKind::from_index(6), TetrominoKind::Z);
    assert_eq!(TetrominoKind::from_index(40), TetrominoKind::Z);
    for n in 0..7 {
        assert_eq!(TetrominoKind::from_index(n).index(), n as usize);
    }
    let r = TetrominoKind::random();
    assert!(r.index() < 7);
}

#[test]
fn board_geometry() {
    assert_eq!(floor_y(20), -10 * UNITS_PER_BLOCK);
    assert_eq!(left_wall_x(10), -5 * UNITS_PER_BLOCK);
    assert_eq!(floor_y(7), -7 * HALF_BLOCK);
    assert_eq!(block_center(10, 20, 0, 0), (-5 * UNITS_PER_BLOCK + HALF_BLOCK, -10 * UNITS_PER_BLOCK + HALF_BLOCK));
    assert_eq!(row_index(20, row_center_y(0)), Some(0));
    assert_eq!(row_index(20, row_center_y(19)), Some(19));
    assert_eq!(row_index(20, row_center_y(20)), None);
    assert_eq!(row_index(20, floor_y(20) - 1), None);
    assert_eq!(row_index(20, floor_y(20) + UNITS_PER_BLOCK - 1), Some(0));
    assert_eq!(row_index(20, floor_y(20) + UNITS_PER_BLOCK), Some(1));
    let g = Game::default();
    assert_eq!(g.floor_y(), floor_y(20));
    assert_eq!(g.left_wall_x(), left_wall_x(10));
}

#[test]
fn spawn_places_piece_at_top_centre() {
    let mut g = Game::default();
    g.spawn_tetromino_kind(TetrominoKind::I);
    assert_eq!(g.stats.generated_blocks, 4);
    assert_eq!(g.blocks.len(), 4);
    assert_eq!(g.current_tetromino_blocks, vec![0, 1, 2, 3]);
    assert_eq!(g.current_tetromino_joints.len(), 3);
    assert_eq!(g.current_tetromino_kind, Some(TetrominoKind::I));
    // offset (1, 1) lands in lane 5, row 20
    assert_eq!((g.blocks[0].x, g.blocks[0].y), (lane_center_x(5), row_center_y(20)));
    assert_eq!((g.blocks[3].x, g.blocks[3].y), (lane_center_x(5), row_center_y(17)));
    assert!(g.blocks.iter().all(|b| !b.asleep && b.kind == TetrominoKind::I));
    assert_eq!(g.next_id, 7);
}

#[test]
fn spawn_square_has_four_joints_with_half_way_anchors() {
    let mut g = Game::default();
    g.spawn_tetromino_kind(TetrominoKind::T);
    g.spawn_tetromino_kind(TetrominoKind::O);
    assert_eq!(g.stats.generated_blocks, 8);
    assert_eq!(g.blocks.len(), 8);
    let joints = &g.current_tetromino_joints;
    assert_eq!(joints.len(), 4);
    let base = 7;
    assert_eq!((joints[0].id, joints[0].first, joints[0].second), (base + 4, base, base + 1));
    assert_eq!(joints[0].anchor_first, Offset { x: HALF_BLOCK, y: 0 });
    assert_eq!(joints[0].anchor_second, Offset { x: -HALF_BLOCK, y: 0 });
    assert_eq!(joints[1].anchor_first, Offset { x: 0, y: -HALF_BLOCK });
    assert_eq!((joints[3].first, joints[3].second), (base + 1, base));
    assert_eq!(joints[3].anchor_first, Offset { x: -HALF_BLOCK, y: 0 });
}

#[test]
fn random_spawn_counts() {
    let mut g = Game::default();
    g.spawn_tetromino();
    let kind = g.current_tetromino_kind.unwrap();
    assert_eq!(g.stats.generated_blocks, 4);
    assert_eq!(g.current_tetromino_joints.len(), kind.layout().joints.len());
}

#[test]
fn full_row_of_ten_is_cleared() {
    let mut g = Game::default();
    let ids = fill_row(&mut g, 0, 10, true);
    let other = g.insert_block(TetrominoKind::I, lane_center_x(3), row_center_y(1), true);
    let removed = g.clear_filled_rows();
    assert_eq!(removed, ids);
    assert_eq!(g.stats.cleared_blocks, 10);
    assert_eq!(g.blocks.len(), 1);
    assert_eq!(g.blocks[0].id, other);
}

#[test]
fn row_of_nine_is_untouched() {
    let mut g = Game::default();
    fill_row(&mut g, 0, 9, true);
    assert!(g.clear_filled_rows().is_empty());
    assert_eq!(g.stats.cleared_blocks, 0);
    assert_eq!(g.blocks.len(), 9);
}

#[test]
fn row_of_eleven_is_untouched() {
    let mut g = Game::default();
    fill_row(&mut g, 4, 11, true);
    assert!(g.clear_filled_rows().is_empty());
    assert_eq!(g.stats.cleared_blocks, 0);
    assert_eq!(g.blocks.len(), 11);
}

#[test]
fn moving_blocks_do_not_count() {
    let mut g = Game::default();
    let ids = fill_row(&mut g, 2, 10, true);
    g.set_block_state(ids[4], lane_center_x(4), row_center_y(2), false);
    assert!(g.clear_filled_rows().is_empty());
    assert_eq!(g.blocks.len(), 10);

    let mut g = Game::default();
    let ids = fill_row(&mut g, 2, 10, true);
    let moving = g.insert_block(TetrominoKind::S, lane_center_x(4), row_center_y(2) + 100, false);
    assert_eq!(g.clear_filled_rows(), ids);
    assert_eq!(g.stats.cleared_blocks, 10);
    assert_eq!(g.blocks.len(), 1);
    assert_eq!(g.blocks[0].id, moving);
}

#[test]
fn several_full_rows_clear_together() {
    let mut g = Game::default();
    fill_row(&mut g, 0, 10, true);
    fill_row(&mut g, 5, 10, true);
    fill_row(&mut g, 19, 10, true);
    fill_row(&mut g, 7, 3, true);
    assert_eq!(g.clear_filled_rows().len(), 30);
    assert_eq!(g.stats.cleared_blocks, 30);
    assert_eq!(g.blocks.len(), 3);
}

#[test]
fn rows_off_the_board_never_clear() {
    let mut g = Game::default();
    fill_row(&mut g, 20, 10, true);
    fill_row(&mut g, -1, 10, true);
    assert!(g.clear_filled_rows().is_empty());
    assert_eq!(g.blocks.len(), 20);
}

#[test]
fn off_board_block_is_lost() {
    let mut g = Game::default();
    let bottom = floor_y(20) - 2 * UNITS_PER_BLOCK;
    let low = g.insert_block(TetrominoKind::L, 0, bottom - 2 * UNITS_PER_BLOCK - 1, false);
    let edge = g.insert_block(TetrominoKind::L, 0, bottom - 2 * UNITS_PER_BLOCK, false);
    assert_eq!(g.remove_off_board_blocks(bottom), vec![low]);
    assert_eq!(g.stats.lost_blocks, 1);
    assert!(!g.stats.lost_tetromino);
    assert_eq!(g.blocks.len(), 1);
    assert_eq!(g.blocks[0].id, edge);
}

#[test]
fn losing_active_block_loses_piece_for_good() {
    let mut g = Game::default();
    g.spawn_tetromino_kind(TetrominoKind::Z);
    let id = g.current_tetromino_blocks[2];
    let bottom = floor_y(20) - 2 * UNITS_PER_BLOCK;
    assert!(g.set_block_state(id, 0, bottom - 5 * UNITS_PER_BLOCK, false));
    assert_eq!(g.remove_off_board_blocks(bottom), vec![id]);
    assert_eq!(g.stats.lost_blocks, 1);
    assert!(g.stats.lost_tetromino);
    assert!(g.block(id).is_none());

    for other in g.current_tetromino_blocks.clone() {
        g.set_block_state(other, 0, row_center_y(0), true);
    }
    let out = g.settle_with(TetrominoKind::I);
    assert!(out.settled);
    assert_eq!(out.spawned, None);
    assert!(g.stats.lost_tetromino);
    assert!(g.remove_off_board_blocks(bottom).is_empty());
    assert!(g.stats.lost_tetromino);
    assert_eq!(ratio(&g.stats), 0.0);
}

#[test]
fn unknown_handle_is_skipped() {
    let mut g = Game::default();
    assert!(!g.set_block_state(99, 0, 0, true));
    assert!(g.block(99).is_none());
    assert_eq!(g.find_block(99), None);
}

#[test]
fn moving_piece_does_not_settle() {
    let mut g = Game::default();
    g.spawn_tetromino_kind(TetrominoKind::J);
    assert!(!g.piece_at_rest());
    let out = g.settle_with(TetrominoKind::O);
    assert!(!out.settled);
    assert!(out.released_joints.is_empty());
    assert_eq!(out.spawned, None);
    assert_eq!(g.current_tetromino_kind, Some(TetrominoKind::J));
    assert_eq!(g.stats.generated_blocks, 4);
}

#[test]
fn no_active_piece_never_settles() {
    let mut g = Game::default();
    assert!(!g.piece_at_rest());
    let out = g.settle_with(TetrominoKind::O);
    assert!(!out.settled);
    assert!(g.blocks.is_empty());
}

#[test]
fn settled_piece_releases_joints_and_spawns_next() {
    let mut g = Game::default();
    g.spawn_tetromino_kind(TetrominoKind::L);
    let joint_ids: Vec<u64> = g.current_tetromino_joints.iter().map(|j| j.id).collect();
    for id in g.current_tetromino_blocks.clone() {
        let b = g.block(id).unwrap();
        g.set_block_state(id, b.x, b.y, true);
    }
    assert!(g.piece_at_rest());
    let out = g.settle_with(TetrominoKind::O);
    assert!(out.settled);
    assert_eq!(out.released_joints, joint_ids);
    assert!(out.cleared_blocks.is_empty());
    assert_eq!(out.spawned, Some(TetrominoKind::O));
    assert_eq!(g.current_tetromino_joints.len(), 4);
    assert_eq!(g.blocks.len(), 8);
    assert_eq!(g.stats.generated_blocks, 8);
}

#[test]
fn full_line_from_settled_piece_then_next_spawn() {
    let mut g = Game::default();
    assert_eq!(g.stats, Stats::new());
    g.spawn_tetromino_kind(TetrominoKind::I);
    for (lane, id) in g.current_tetromino_blocks.clone().into_iter().enumerate() {
        assert!(g.set_block_state(id, lane_center_x(lane as i64), row_center_y(0), true));
    }
    for lane in 4..10 {
        g.insert_block(TetrominoKind::T, lane_center_x(lane), row_center_y(0), true);
    }
    let out = g.settle_with(TetrominoKind::T);
    assert!(out.settled);
    assert_eq!(out.cleared_blocks.len(), 10);
    assert_eq!(g.stats.cleared_blocks, 10);
    assert_eq!(ratio(&g.stats), 1.0);
    assert_eq!(out.spawned, Some(TetrominoKind::T));
    assert_eq!(g.current_tetromino_kind, Some(TetrominoKind::T));
    assert_eq!(g.current_tetromino_joints.len(), TetrominoKind::T.layout().joints.len());
    assert_eq!(g.blocks.len(), 4);
    assert_eq!(g.stats.generated_blocks, 8);
}

#[test]
fn lost_piece_stops_spawning() {
    let mut g = Game::default();
    g.spawn_tetromino_kind(TetrominoKind::S);
    for id in g.current_tetromino_blocks.clone() {
        let b = g.block(id).unwrap();
        g.set_block_state(id, b.x, b.y, true);
    }
    g.stats.lost_tetromino = true;
    g.stats.cleared_blocks = 40;
    let out = g.settle_with(TetrominoKind::I);
    assert!(out.settled);
    assert_eq!(out.spawned, None);
    assert_eq!(g.current_tetromino_kind, None);
    assert!(g.current_tetromino_blocks.is_empty());
    assert!(g.current_tetromino_joints.is_empty());
    assert_eq!(g.stats.generated_blocks, 4);
    assert!(!g.settle_with(TetrominoKind::I).settled);
}

#[test]
fn random_sleep_detection_spawns_some_kind() {
    let mut g = Game::default();
    g.spawn_tetromino_kind(TetrominoKind::I);
    for id in g.current_tetromino_blocks.clone() {
        let b = g.block(id).unwrap();
        g.set_block_state(id, b.x, b.y, true);
    }
    let out = g.tetromino_sleep_detection();
    let kind = out.spawned.unwrap();
    assert_eq!(g.current_tetromino_kind, Some(kind));
    assert_eq!(g.current_tetromino_joints.len(), kind.layout().joints.len());
}

#[test]
fn movement_axes() {
    assert_eq!(input_axis(false, false), 0);
    assert_eq!(input_axis(true, true), 0);
    assert_eq!(input_axis(false, true), 1);
    assert_eq!(input_axis(true, false), -1);
}

#[test]
fn movement_pushes_active_blocks() {
    let mut g = Game::default();
    g.spawn_tetromino_kind(TetrominoKind::T);
    assert!(g.tetromino_movement(0, 0).is_empty());
    let pushes = g.tetromino_movement(-1, 0);
    assert_eq!(pushes.len(), 4);
    assert_eq!(pushes[0], BlockPush { block: 0, force_x: Some(-MOVEMENT_FORCE), torque: None });
    let bottom = floor_y(20) - 2 * UNITS_PER_BLOCK;
    g.set_block_state(1, 0, bottom - 10 * UNITS_PER_BLOCK, false);
    g.remove_off_board_blocks(bottom);
    let pushes = g.tetromino_movement(1, 1);
    assert_eq!(pushes.len(), 3);
    assert_eq!(pushes[1], BlockPush { block: 2, force_x: Some(MOVEMENT_FORCE), torque: Some(TORQUE) });
    let pushes = g.tetromino_movement(0, -1);
    assert_eq!(pushes[2], BlockPush { block: 3, force_x: None, torque: Some(-TORQUE) });
}

#[test]
fn random_kinds_vary() {
    let mut seen = [false; 7];
    for _ in 0..300 {
        seen[TetrominoKind::random().index()] = true;
    }
    assert!(seen.iter().filter(|s| **s).count() >= 2);
}
