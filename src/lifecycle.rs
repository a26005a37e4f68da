use vstd::prelude::*;
use crate::board::{block_center, side_ok, HALF_BLOCK};
use crate::catalog::{
    coords_view, lemma_layouts_valid, spec_coords, spec_joints, spec_kind_of_index,
    TetrominoKind, KIND_COUNT,
};
use crate::game::{
    handles_ok, holds_new_piece, is_piece_block, is_piece_joint, spawned, spec_is_active, Block, Game,
    Joint, Offset,
};
use crate::offboard::contains_id;
use crate::rows::{spec_cleared_ids, spec_remaining, stats_after_clear};
use crate::stats::spec_health;

verus! {

/// What one settle check did: whether the active piece had come to rest, the joints it
/// released, the blocks that row clearing removed, and the kind of the piece spawned next.
#[derive(Debug)]
pub struct SettleOutcome {
    pub settled: bool,
    pub released_joints: Vec<u64>,
    pub cleared_blocks: Vec<u64>,
    pub spawned: Option<TetrominoKind>,
}

/// The active piece has come to rest: there is one, and each of its blocks that is still in
/// the world is asleep.
pub open spec fn spec_piece_at_rest(g: Game) -> bool {
    &&& g.current_tetromino_blocks@.len() > 0
    &&& forall|i: int|
        0 <= i < g.blocks@.len() && spec_is_active(g, #[trigger] g.blocks@[i].id) ==> g.blocks@[i].asleep
}

/// The handles of a sequence of joints.
pub open spec fn joint_ids(joints: Seq<Joint>) -> Seq<u64> {
    joints.map_values(|j: Joint| j.id)
}

/// One settle check from `before` to `after`, with `kind` as the kind to spawn next. While
/// the piece moves nothing changes. Once it rests its joints are released, full rows are
/// cleared, and a `kind` piece is spawned if health stays positive; otherwise no piece is
/// left active and the game is over.
pub open spec fn settle_step(before: Game, after: Game, out: SettleOutcome, kind: TetrominoKind) -> bool {
    let nl = before.n_lanes as int;
    let nr = before.n_rows as int;
    let remaining = spec_remaining(before.blocks@, nl, nr);
    let stats = stats_after_clear(before.stats, before.blocks@, nl, nr);
    &&& after.n_lanes == before.n_lanes
    &&& after.n_rows == before.n_rows
    &&& out.settled == spec_piece_at_rest(before)
    &&& if !spec_piece_at_rest(before) {
        &&& out.released_joints@.len() == 0
        &&& out.cleared_blocks@.len() == 0
        &&& out.spawned.is_none()
        &&& after.stats == before.stats
        &&& after.blocks@ == before.blocks@
        &&& after.current_tetromino_kind == before.current_tetromino_kind
        &&& after.current_tetromino_blocks@ == before.current_tetromino_blocks@
        &&& after.current_tetromino_joints@ == before.current_tetromino_joints@
        &&& after.next_id == before.next_id
    } else {
        &&& out.released_joints@ == joint_ids(before.current_tetromino_joints@)
        &&& out.cleared_blocks@ == spec_cleared_ids(before.blocks@, nl, nr)
        &&& if spec_health(stats).0 > 0 {
            &&& out.spawned == Some(kind)
            &&& after.stats.generated_blocks == stats.generated_blocks + 4
            &&& after.stats.cleared_blocks == stats.cleared_blocks
            &&& after.stats.lost_blocks == stats.lost_blocks
            &&& after.stats.lost_tetromino == stats.lost_tetromino
            &&& holds_new_piece(after, remaining, kind, before.next_id as int)
        } else {
            &&& out.spawned.is_none()
            &&& after.stats == stats
            &&& after.blocks@ == remaining
            &&& after.current_tetromino_kind.is_none()
            &&& after.current_tetromino_blocks@.len() == 0
            &&& after.current_tetromino_joints@.len() == 0
            &&& after.next_id == before.next_id
        }
    }
}

/// Spawning adds four blocks to the generated count, puts four blocks in the world, and
/// pins them with one joint per pair of the kind: four for the square, three otherwise.
pub proof fn lemma_spawn_counts(before: Game, after: Game, kind: TetrominoKind)
    requires
        spawned(before, after, kind),
    ensures
        after.stats.generated_blocks == before.stats.generated_blocks + 4,
        after.blocks@.len() == before.blocks@.len() + 4,
        after.current_tetromino_blocks@.len() == 4,
        after.current_tetromino_joints@.len() == spec_joints(kind).len(),
        after.current_tetromino_joints@.len() == if kind == TetrominoKind::O { 4nat } else { 3nat },
{
}

/// Once the piece is lost, no settle check spawns another, the flag stays set, and health
/// stays zero, whatever the other counters are.
pub proof fn lemma_lost_piece_ends_game(before: Game, after: Game, out: SettleOutcome, kind: TetrominoKind)
    requires
        settle_step(before, after, out, kind),
        before.stats.lost_tetromino,
    ensures
        out.spawned.is_none(),
        after.stats.lost_tetromino,
        spec_health(after.stats).0 == 0,
{
}

/// Every piece offset lies within three lanes and four rows.
proof fn lemma_coords_small(k: TetrominoKind)
    ensures
        forall|i: int|
            0 <= i < 4 ==> 0 <= #[trigger] spec_coords(k)[i].0 <= 2 && -2 <= spec_coords(k)[i].1 <= 1,
{
}

impl Game {
    /// Spawns a `kind` piece at the top centre of the board: four fresh blocks, pinned by
    /// the kind's joints, become the active piece, and four blocks count as generated.
    pub fn spawn_tetromino_kind(&mut self, kind: TetrominoKind)
        requires
            old(self).wf(),
            old(self).can_spawn(),
        ensures
            final(self).wf(),
            spawned(*old(self), *final(self), kind),
    {
        let layout = kind.layout();
        let base = self.next_id;
        let ghost before = self.blocks@;
        proof {
            lemma_coords_small(kind);
            lemma_layouts_valid(kind);
        }
        let mut i: usize = 0;
        while i < 4
            invariant
                i <= 4,
                coords_view(layout.coords) == spec_coords(kind),
                layout.joints@ == spec_joints(kind),
                self.n_lanes == old(self).n_lanes,
                self.n_rows == old(self).n_rows,
                self.stats == old(self).stats,
                old(self).can_spawn(),
                side_ok(self.n_lanes as int),
                side_ok(self.n_rows as int),
                base == old(self).next_id,
                base + 8 <= u64::MAX,
                handles_ok(before, base as int),
                self.blocks@.len() == before.len() + i,
                self.blocks@.take(before.len() as int) == before,
                handles_ok(self.blocks@, base + i),
                forall|k: int|
                    0 <= k < i ==> is_piece_block(
                        #[trigger] self.blocks@[before.len() + k],
                        self.n_lanes as int,
                        self.n_rows as int,
                        kind,
                        base as int,
                        k,
                    ),
            decreases 4 - i,
        {
            let (x, y) = layout.coords[i];
            let lane = (self.n_lanes / 2) as i64 - 1 + x as i64;
            let row = self.n_rows as i64 - 1 + y as i64;
            let (cx, cy) = block_center(self.n_lanes, self.n_rows, lane, row);
            let ghost prev = self.blocks@;
            self.blocks.push(Block { id: base + i as u64, kind, x: cx, y: cy, asleep: false });
            proof {
                assert(self.blocks@.take(before.len() as int) =~= prev.take(before.len() as int));
            }
            i = i + 1;
        }
        let mut joints: Vec<Joint> = Vec::new();
        let mut k: usize = 0;
        while k < layout.joints.len()
            invariant
                k <= layout.joints@.len(),
                coords_view(layout.coords) == spec_coords(kind),
                layout.joints@ == spec_joints(kind),
                layout.joints@.len() <= 4,
                forall|j: int|
                    0 <= j < layout.joints@.len() ==> (#[trigger] layout.joints@[j]).0 < 4
                        && layout.joints@[j].1 < 4,
                base + 8 <= u64::MAX,
                joints@.len() == k,
                forall|j: int| 0 <= j < k ==> is_piece_joint(#[trigger] joints@[j], kind, base as int, j),
            decreases layout.joints@.len() - k,
        {
            let (a, b) = layout.joints[k];
            assert(coords_view(layout.coords)[a as int] == spec_coords(kind)[a as int]);
            assert(coords_view(layout.coords)[b as int] == spec_coords(kind)[b as int]);
            let dx = layout.coords[b].0 as i64 - layout.coords[a].0 as i64;
            let dy = layout.coords[b].1 as i64 - layout.coords[a].1 as i64;
            joints.push(
                Joint {
                    id: base + 4 + k as u64,
                    first: base + a as u64,
                    second: base + b as u64,
                    anchor_first: Offset { x: dx * HALF_BLOCK, y: dy * HALF_BLOCK },
                    anchor_second: Offset { x: -dx * HALF_BLOCK, y: -dy * HALF_BLOCK },
                },
            );
            k = k + 1;
        }
        self.stats.generated_blocks = self.stats.generated_blocks + 4;
        self.current_tetromino_kind = Some(kind);
        self.current_tetromino_blocks = vec![base, base + 1, base + 2, base + 3];
        self.current_tetromino_joints = joints;
        self.next_id = base + 4 + layout.joints.len() as u64;
        proof {
            assert(self.current_tetromino_blocks@ =~= seq![
                base as u64,
                (base + 1) as u64,
                (base + 2) as u64,
                (base + 3) as u64,
            ]);
        }
    }

    /// Whether the active piece has come to rest.
    pub fn piece_at_rest(&self) -> (r: bool)
        ensures
            r == spec_piece_at_rest(*self),
    {
        if self.current_tetromino_blocks.len() == 0 {
            return false;
        }
        let mut i: usize = 0;
        while i < self.blocks.len()
            invariant
                i <= self.blocks@.len(),
                forall|k: int|
                    0 <= k < i && spec_is_active(*self, #[trigger] self.blocks@[k].id) ==> self.blocks@[k].asleep,
            decreases self.blocks@.len() - i,
        {
            let b = self.blocks[i];
            if !b.asleep && contains_id(&self.current_tetromino_blocks, b.id) {
                return false;
            }
            i = i + 1;
        }
        true
    }

    /// Settle check with `kind` as the next piece: once the active piece rests, releases
    /// its joints, clears full rows, and spawns a `kind` piece while health is positive.
    pub fn settle_with(&mut self, kind: TetrominoKind) -> (out: SettleOutcome)
        requires
            old(self).wf(),
            old(self).can_clear(),
            old(self).can_spawn(),
        ensures
            final(self).wf(),
            settle_step(*old(self), *final(self), out, kind),
    {
        if !self.piece_at_rest() {
            return SettleOutcome {
                settled: false,
                released_joints: Vec::new(),
                cleared_blocks: Vec::new(),
                spawned: None,
            };
        }
        let mut released: Vec<u64> = Vec::new();
        let mut k: usize = 0;
        while k < self.current_tetromino_joints.len()
            invariant
                k <= self.current_tetromino_joints@.len(),
                released@ == joint_ids(self.current_tetromino_joints@.take(k as int)),
            decreases self.current_tetromino_joints@.len() - k,
        {
            proof {
                assert(joint_ids(self.current_tetromino_joints@.take(k + 1)) =~= joint_ids(
                    self.current_tetromino_joints@.take(k as int),
                ).push(self.current_tetromino_joints@[k as int].id));
            }
            released.push(self.current_tetromino_joints[k].id);
            k = k + 1;
        }
        proof {
            assert(self.current_tetromino_joints@.take(k as int) =~= self.current_tetromino_joints@);
        }
        let cleared = self.clear_filled_rows();
        self.current_tetromino_joints = Vec::new();
        self.current_tetromino_blocks = Vec::new();
        self.current_tetromino_kind = None;
        let spawned = if self.stats.health().is_positive() {
            self.spawn_tetromino_kind(kind);
            Some(kind)
        } else {
            None
        };
        SettleOutcome { settled: true, released_joints: released, cleared_blocks: cleared, spawned }
    }

    /// Settle check run once per frame; a piece spawned here is of a kind drawn at random.
    pub fn tetromino_sleep_detection(&mut self) -> (out: SettleOutcome)
        requires
            old(self).wf(),
            old(self).can_clear(),
            old(self).can_spawn(),
        ensures
            final(self).wf(),
            exists|n: int| 0 <= n < KIND_COUNT && settle_step(*old(self), *final(self), out, spec_kind_of_index(n)),
    {
        let kind = TetrominoKind::random();
        self.settle_with(kind)
    }

    /// Spawns a piece of a kind drawn at random.
    pub fn spawn_tetromino(&mut self)
        requires
            old(self).wf(),
            old(self).can_spawn(),
        ensures
            final(self).wf(),
            exists|n: int| 0 <= n < KIND_COUNT && spawned(*old(self), *final(self), spec_kind_of_index(n)),
    {
        let kind = TetrominoKind::random();
        self.spawn_tetromino_kind(kind);
    }
}

} // verus!
