use vstd::prelude::*;
use crate::board::{
    floor_y, left_wall_x, side_ok, spec_block_center, spec_floor_y, spec_left_wall_x,
    spec_spawn_cell, HALF_BLOCK,
};
use crate::catalog::{spec_coords, spec_joints, TetrominoKind};
use crate::stats::Stats;

verus! {

/// One square body of the world, under a handle that is never reused.
#[derive(Clone, Copy, Debug, PartialEq, Eq, Structural)]
pub struct Block {
    pub id: u64,
    pub kind: TetrominoKind,
    pub x: i64,
    pub y: i64,
    pub asleep: bool,
}

/// A displacement from a block's centre.
#[derive(Clone, Copy, Debug, PartialEq, Eq, Structural)]
pub struct Offset {
    pub x: i64,
    pub y: i64,
}

/// A pin between two blocks, anchored at an offset from each block's centre.
#[derive(Clone, Copy, Debug, PartialEq, Eq, Structural)]
pub struct Joint {
    pub id: u64,
    pub first: u64,
    pub second: u64,
    pub anchor_first: Offset,
    pub anchor_second: Offset,
}

/// The whole session: board size, counters, every block of the world, and the piece that
/// is falling, if any.
#[derive(Debug)]
pub struct Game {
    pub n_lanes: usize,
    pub n_rows: usize,
    pub stats: Stats,
    pub blocks: Vec<Block>,
    pub current_tetromino_kind: Option<TetrominoKind>,
    pub current_tetromino_blocks: Vec<u64>,
    pub current_tetromino_joints: Vec<Joint>,
    pub next_id: u64,
}

/// Block handles are distinct and below the next handle to be issued.
pub open spec fn handles_ok(blocks: Seq<Block>, next_id: int) -> bool {
    &&& forall|i: int| 0 <= i < blocks.len() ==> blocks[i].id < next_id
    &&& forall|i: int, j: int|
        0 <= i < j < blocks.len() ==> blocks[i].id != blocks[j].id
}

/// Lanes of the standard board.
pub const DEFAULT_LANES: usize = 10;

/// Rows of the standard board.
pub const DEFAULT_ROWS: usize = 20;

/// Whether `id` names a block of the active piece.
pub open spec fn spec_is_active(g: Game, id: u64) -> bool {
    g.current_tetromino_blocks@.contains(id)
}

/// The block that offset `i` of a `kind` piece becomes when its handles start at `base`.
pub open spec fn is_piece_block(
    b: Block,
    n_lanes: int,
    n_rows: int,
    kind: TetrominoKind,
    base: int,
    i: int,
) -> bool {
    let cell = spec_spawn_cell(n_lanes, n_rows, spec_coords(kind)[i].0, spec_coords(kind)[i].1);
    let center = spec_block_center(n_lanes, n_rows, cell.0, cell.1);
    &&& b.id == base + i
    &&& b.kind == kind
    &&& b.x == center.0
    &&& b.y == center.1
    &&& !b.asleep
}

/// The joint that pair `k` of a `kind` piece becomes when its handles start at `base`:
/// each anchor is half the way towards the other block.
pub open spec fn is_piece_joint(j: Joint, kind: TetrominoKind, base: int, k: int) -> bool {
    let (a, b) = spec_joints(kind)[k];
    let dx = spec_coords(kind)[b as int].0 - spec_coords(kind)[a as int].0;
    let dy = spec_coords(kind)[b as int].1 - spec_coords(kind)[a as int].1;
    &&& j.id == base + 4 + k
    &&& j.first == base + a
    &&& j.second == base + b
    &&& j.anchor_first.x == dx * HALF_BLOCK
    &&& j.anchor_first.y == dy * HALF_BLOCK
    &&& j.anchor_second.x == -dx * HALF_BLOCK
    &&& j.anchor_second.y == -dy * HALF_BLOCK
}

/// `g` holds, after the blocks `before`, a fresh `kind` piece whose handles start at
/// `base`, and that piece is the active one.
pub open spec fn holds_new_piece(g: Game, before: Seq<Block>, kind: TetrominoKind, base: int) -> bool {
    &&& g.blocks@.len() == before.len() + 4
    &&& g.blocks@.take(before.len() as int) == before
    &&& forall|i: int|
        0 <= i < 4 ==> is_piece_block(
            #[trigger] g.blocks@[before.len() + i],
            g.n_lanes as int,
            g.n_rows as int,
            kind,
            base,
            i,
        )
    &&& g.current_tetromino_kind == Some(kind)
    &&& g.current_tetromino_blocks@ == seq![
        base as u64,
        (base + 1) as u64,
        (base + 2) as u64,
        (base + 3) as u64,
    ]
    &&& g.current_tetromino_joints@.len() == spec_joints(kind).len()
    &&& forall|k: int|
        0 <= k < spec_joints(kind).len() ==> is_piece_joint(
            #[trigger] g.current_tetromino_joints@[k],
            kind,
            base,
            k,
        )
    &&& g.next_id == base + 4 + spec_joints(kind).len()
}

/// `after` is `before` with a `kind` piece spawned: four more generated blocks, the board
/// and the other counters unchanged.
pub open spec fn spawned(before: Game, after: Game, kind: TetrominoKind) -> bool {
    &&& after.n_lanes == before.n_lanes
    &&& after.n_rows == before.n_rows
    &&& after.stats.generated_blocks == before.stats.generated_blocks + 4
    &&& after.stats.cleared_blocks == before.stats.cleared_blocks
    &&& after.stats.lost_blocks == before.stats.lost_blocks
    &&& after.stats.lost_tetromino == before.stats.lost_tetromino
    &&& holds_new_piece(after, before.blocks@, kind, before.next_id as int)
}

impl Game {
    /// The invariant of a session.
    pub open spec fn wf(self) -> bool {
        &&& side_ok(self.n_lanes as int)
        &&& side_ok(self.n_rows as int)
        &&& handles_ok(self.blocks@, self.next_id as int)
    }

    /// Enough room left in the handle space and the generated counter for one more piece.
    pub open spec fn can_spawn(self) -> bool {
        &&& self.next_id + 8 <= u64::MAX
        &&& self.stats.generated_blocks + 4 <= u64::MAX
    }

    /// An empty board of the given size with fresh counters and no piece.
    pub fn new(n_lanes: usize, n_rows: usize) -> (r: Game)
        requires
            side_ok(n_lanes as int),
            side_ok(n_rows as int),
        ensures
            r.wf(),
            r.n_lanes == n_lanes,
            r.n_rows == n_rows,
            r.stats == Stats::spec_new(),
            r.blocks@.len() == 0,
            r.current_tetromino_kind.is_none(),
            r.current_tetromino_blocks@.len() == 0,
            r.current_tetromino_joints@.len() == 0,
            r.next_id == 0,
    {
        Game {
            n_lanes,
            n_rows,
            stats: Stats::new(),
            blocks: Vec::new(),
            current_tetromino_kind: None,
            current_tetromino_blocks: Vec::new(),
            current_tetromino_joints: Vec::new(),
            next_id: 0,
        }
    }

    /// The lower edge of the board's rows.
    pub fn floor_y(&self) -> (r: i64)
        requires
            self.wf(),
        ensures
            r == spec_floor_y(self.n_rows as int),
    {
        floor_y(self.n_rows)
    }

    /// The left edge of the board's lanes.
    pub fn left_wall_x(&self) -> (r: i64)
        requires
            self.wf(),
        ensures
            r == spec_left_wall_x(self.n_lanes as int),
    {
        left_wall_x(self.n_lanes)
    }

    /// The position in `blocks` of the block with handle `id`, if it is still in the world.
    pub fn find_block(&self, id: u64) -> (r: Option<usize>)
        ensures
            match r {
                Some(i) => i < self.blocks@.len() && self.blocks@[i as int].id == id,
                None => forall|i: int| 0 <= i < self.blocks@.len() ==> self.blocks@[i].id != id,
            },
    {
        let mut i: usize = 0;
        while i < self.blocks.len()
            invariant
                i <= self.blocks@.len(),
                forall|k: int| 0 <= k < i ==> self.blocks@[k].id != id,
            decreases self.blocks@.len() - i,
        {
            if self.blocks[i].id == id {
                return Some(i);
            }
            i = i + 1;
        }
        None
    }

    /// The block with handle `id`, if it is still in the world.
    pub fn block(&self, id: u64) -> (r: Option<Block>)
        ensures
            match r {
                Some(b) => b.id == id && self.blocks@.contains(b),
                None => forall|i: int| 0 <= i < self.blocks@.len() ==> self.blocks@[i].id != id,
            },
    {
        match self.find_block(id) {
            Some(i) => Some(self.blocks[i]),
            None => None,
        }
    }

    /// Records what the physics reports of a block: its centre and whether it is at rest.
    /// Returns `false`, changing nothing, when no block has that handle.
    pub fn set_block_state(&mut self, id: u64, x: i64, y: i64, asleep: bool) -> (found: bool)
        requires
            old(self).wf(),
        ensures
            final(self).wf(),
            found == exists|i: int| 0 <= i < old(self).blocks@.len() && old(self).blocks@[i].id == id,
            found ==> exists|i: int|
                0 <= i < old(self).blocks@.len() && old(self).blocks@[i].id == id
                    && final(self).blocks@ == old(self).blocks@.update(
                    i,
                    Block { x, y, asleep, ..old(self).blocks@[i] },
                ),
            !found ==> final(self).blocks@ == old(self).blocks@,
            final(self).n_lanes == old(self).n_lanes,
            final(self).n_rows == old(self).n_rows,
            final(self).stats == old(self).stats,
            final(self).current_tetromino_kind == old(self).current_tetromino_kind,
            final(self).current_tetromino_blocks@ == old(self).current_tetromino_blocks@,
            final(self).current_tetromino_joints@ == old(self).current_tetromino_joints@,
            final(self).next_id == old(self).next_id,
    {
        match self.find_block(id) {
            Some(i) => {
                let old_block = self.blocks[i];
                let b = Block { x, y, asleep, ..old_block };
                self.blocks.set(i, b);
                true
            },
            None => false,
        }
    }

    /// Puts a resting or moving block of the given kind into the world outside any piece,
    /// under a fresh handle, which is returned.
    pub fn insert_block(&mut self, kind: TetrominoKind, x: i64, y: i64, asleep: bool) -> (id: u64)
        requires
            old(self).wf(),
            old(self).next_id < u64::MAX,
        ensures
            final(self).wf(),
            id == old(self).next_id,
            final(self).blocks@ == old(self).blocks@.push(Block { id, kind, x, y, asleep }),
            final(self).next_id == old(self).next_id + 1,
            final(self).n_lanes == old(self).n_lanes,
            final(self).n_rows == old(self).n_rows,
            final(self).stats == old(self).stats,
            final(self).current_tetromino_kind == old(self).current_tetromino_kind,
            final(self).current_tetromino_blocks@ == old(self).current_tetromino_blocks@,
            final(self).current_tetromino_joints@ == old(self).current_tetromino_joints@,
    {
        let id = self.next_id;
        self.blocks.push(Block { id, kind, x, y, asleep });
        self.next_id = id + 1;
        id
    }
}

impl Default for Game {
    /// The standard ten by twenty board, empty.
    fn default() -> (r: Game)
        ensures
            r.wf(),
            r.n_lanes == DEFAULT_LANES,
            r.n_rows == DEFAULT_ROWS,
            r.stats == Stats::spec_new(),
            r.blocks@.len() == 0,
            r.current_tetromino_kind.is_none(),
            r.current_tetromino_blocks@.len() == 0,
            r.current_tetromino_joints@.len() == 0,
            r.next_id == 0,
    {
        Game::new(DEFAULT_LANES, DEFAULT_ROWS)
    }
}

} // verus!
