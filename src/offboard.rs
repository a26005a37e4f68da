use vstd::prelude::*;
use crate::board::UNITS_PER_BLOCK;
use crate::game::{spec_is_active, Block, Game};
use crate::rows::{ids_of, lemma_filter_keeps_handles};

verus! {

/// How far below the bottom of the view a block may sink before it counts as lost.
pub const LOST_MARGIN: i64 = 2 * UNITS_PER_BLOCK;

/// Block `b` has sunk more than two block heights below the bottom of the view.
pub open spec fn is_lost(viewport_bottom: int, b: Block) -> bool {
    b.y < viewport_bottom - 2 * UNITS_PER_BLOCK
}

/// The blocks that an off-board pass removes.
pub open spec fn lost_pred(viewport_bottom: int) -> spec_fn(Block) -> bool {
    |b: Block| is_lost(viewport_bottom, b)
}

/// The blocks that an off-board pass keeps.
pub open spec fn on_board_pred(viewport_bottom: int) -> spec_fn(Block) -> bool {
    |b: Block| !is_lost(viewport_bottom, b)
}

/// Whether one of `ids` names a block of the active piece of `g`.
pub open spec fn hits_active(g: Game, ids: Seq<u64>) -> bool {
    exists|j: int| 0 <= j < ids.len() && spec_is_active(g, ids[j])
}

/// Whether `ids` holds `id`.
pub fn contains_id(ids: &Vec<u64>, id: u64) -> (r: bool)
    ensures
        r == ids@.contains(id),
{
    let mut i: usize = 0;
    while i < ids.len()
        invariant
            i <= ids@.len(),
            forall|k: int| 0 <= k < i ==> ids@[k] != id,
        decreases ids@.len() - i,
    {
        if ids[i] == id {
            return true;
        }
        i = i + 1;
    }
    false
}

impl Game {
    /// Room in the lost counter for every block of the world.
    pub open spec fn can_lose(self) -> bool {
        self.stats.lost_blocks + self.blocks@.len() <= u64::MAX
    }

    /// Removes every block that has fallen below the view, given the height of its lower
    /// edge; each counts as lost, and losing a block of the active piece loses the piece
    /// for good. Returns the handles of the removed blocks.
    pub fn remove_off_board_blocks(&mut self, viewport_bottom: i64) -> (removed: Vec<u64>)
        requires
            old(self).wf(),
            old(self).can_lose(),
        ensures
            final(self).wf(),
            final(self).blocks@ == old(self).blocks@.filter(on_board_pred(viewport_bottom as int)),
            removed@ == ids_of(old(self).blocks@.filter(lost_pred(viewport_bottom as int))),
            final(self).stats.lost_blocks == old(self).stats.lost_blocks + removed@.len(),
            final(self).stats.lost_tetromino == (old(self).stats.lost_tetromino || hits_active(
                *old(self),
                removed@,
            )),
            final(self).stats.generated_blocks == old(self).stats.generated_blocks,
            final(self).stats.cleared_blocks == old(self).stats.cleared_blocks,
            final(self).n_lanes == old(self).n_lanes,
            final(self).n_rows == old(self).n_rows,
            final(self).current_tetromino_kind == old(self).current_tetromino_kind,
            final(self).current_tetromino_blocks@ == old(self).current_tetromino_blocks@,
            final(self).current_tetromino_joints@ == old(self).current_tetromino_joints@,
            final(self).next_id == old(self).next_id,
    {
        let ghost blocks = self.blocks@;
        let ghost vb = viewport_bottom as int;
        // With the view this low, no height lies more than the margin below it.
        let threshold_fits = viewport_bottom >= i64::MIN + LOST_MARGIN;
        let threshold = if threshold_fits {
            viewport_bottom - LOST_MARGIN
        } else {
            i64::MIN
        };
        let mut kept: Vec<Block> = Vec::new();
        let mut removed: Vec<u64> = Vec::new();
        let mut lost_piece = self.stats.lost_tetromino;
        let mut i: usize = 0;
        while i < self.blocks.len()
            invariant
                self.blocks@ == blocks,
                self.stats == old(self).stats,
                self.current_tetromino_blocks@ == old(self).current_tetromino_blocks@,
                blocks == old(self).blocks@,
                vb == viewport_bottom,
                threshold_fits ==> threshold == vb - 2 * UNITS_PER_BLOCK,
                !threshold_fits ==> threshold == i64::MIN,
                !threshold_fits ==> vb - 2 * UNITS_PER_BLOCK <= i64::MIN,
                i <= blocks.len(),
                kept@ == blocks.take(i as int).filter(on_board_pred(vb)),
                removed@ == ids_of(blocks.take(i as int).filter(lost_pred(vb))),
                removed@.len() <= i,
                lost_piece == (old(self).stats.lost_tetromino || hits_active(*old(self), removed@)),
            decreases blocks.len() - i,
        {
            let b = self.blocks[i];
            let ghost lost_before = blocks.take(i as int).filter(lost_pred(vb));
            proof {
                assert(blocks.take(i + 1) =~= blocks.take(i as int).push(b));
                blocks.take(i as int).lemma_filter_push(b, on_board_pred(vb));
                blocks.take(i as int).lemma_filter_push(b, lost_pred(vb));
                assert(ids_of(lost_before.push(b)) =~= ids_of(lost_before).push(b.id));
            }
            if b.y < threshold {
                let ghost prev = removed@;
                removed.push(b.id);
                if contains_id(&self.current_tetromino_blocks, b.id) {
                    lost_piece = true;
                    assert(spec_is_active(*old(self), removed@[prev.len() as int]));
                }
                proof {
                    if hits_active(*old(self), prev) {
                        let j = choose|j: int| 0 <= j < prev.len() && spec_is_active(*old(self), prev[j]);
                        assert(removed@[j] == prev[j]);
                    }
                    if hits_active(*old(self), removed@) && !spec_is_active(*old(self), b.id) {
                        let j = choose|j: int| 0 <= j < removed@.len() && spec_is_active(*old(self), removed@[j]);
                        assert(prev[j] == removed@[j]);
                    }
                }
            } else {
                kept.push(b);
            }
            i = i + 1;
        }
        proof {
            assert(blocks.take(blocks.len() as int) =~= blocks);
            lemma_filter_keeps_handles(blocks, on_board_pred(vb), self.next_id as int);
        }
        self.blocks = kept;
        self.stats.lost_blocks = self.stats.lost_blocks + removed.len() as u64;
        self.stats.lost_tetromino = lost_piece;
        removed
    }
}

} // verus!
