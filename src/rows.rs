use vstd::prelude::*;
use crate::board::{row_index, side_ok, spec_row_of};
use crate::game::{handles_ok, Block, Game};
use crate::stats::Stats;

verus! {

/// Whether block `b` is at rest in row `r`.
pub open spec fn rests_in_row(n_rows: int, b: Block, r: int) -> bool {
    b.asleep && spec_row_of(n_rows, b.y as int) == r
}

/// How many blocks of `blocks` are at rest in row `r`.
pub open spec fn row_count(blocks: Seq<Block>, n_rows: int, r: int) -> nat
    decreases blocks.len(),
{
    if blocks.len() == 0 {
        0
    } else {
        row_count(blocks.drop_last(), n_rows, r) + if rests_in_row(n_rows, blocks.last(), r) {
            1nat
        } else {
            0nat
        }
    }
}

/// Row `r` lies on the board and holds exactly one resting block per lane.
pub open spec fn row_full(blocks: Seq<Block>, n_lanes: int, n_rows: int, r: int) -> bool {
    0 <= r < n_rows && row_count(blocks, n_rows, r) == n_lanes
}

/// Block `b` rests in a full row of `blocks`.
pub open spec fn is_cleared(blocks: Seq<Block>, n_lanes: int, n_rows: int, b: Block) -> bool {
    b.asleep && row_full(blocks, n_lanes, n_rows, spec_row_of(n_rows, b.y as int))
}

/// The blocks that a clearing pass over `blocks` removes.
pub open spec fn clear_pred(blocks: Seq<Block>, n_lanes: int, n_rows: int) -> spec_fn(Block) -> bool {
    |b: Block| is_cleared(blocks, n_lanes, n_rows, b)
}

/// The blocks that a clearing pass over `blocks` keeps.
pub open spec fn keep_pred(blocks: Seq<Block>, n_lanes: int, n_rows: int) -> spec_fn(Block) -> bool {
    |b: Block| !is_cleared(blocks, n_lanes, n_rows, b)
}

/// The number of full rows among rows `0..upto`.
pub open spec fn full_rows(blocks: Seq<Block>, n_lanes: int, n_rows: int, upto: int) -> nat
    decreases upto,
{
    if upto <= 0 {
        0
    } else {
        full_rows(blocks, n_lanes, n_rows, upto - 1) + if row_full(blocks, n_lanes, n_rows, upto - 1) {
            1nat
        } else {
            0nat
        }
    }
}

/// The handles of a sequence of blocks.
pub open spec fn ids_of(blocks: Seq<Block>) -> Seq<u64> {
    blocks.map_values(|b: Block| b.id)
}

/// The world after a clearing pass over `blocks`: what stays.
pub open spec fn spec_remaining(blocks: Seq<Block>, n_lanes: int, n_rows: int) -> Seq<Block> {
    blocks.filter(keep_pred(blocks, n_lanes, n_rows))
}

/// The handles that a clearing pass over `blocks` removes, in world order.
pub open spec fn spec_cleared_ids(blocks: Seq<Block>, n_lanes: int, n_rows: int) -> Seq<u64> {
    ids_of(blocks.filter(clear_pred(blocks, n_lanes, n_rows)))
}

/// The counters after a clearing pass over `blocks`: one lane's worth of blocks per full
/// row is added to the cleared count.
pub open spec fn stats_after_clear(s: Stats, blocks: Seq<Block>, n_lanes: int, n_rows: int) -> Stats {
    Stats {
        cleared_blocks: (s.cleared_blocks + n_lanes * full_rows(blocks, n_lanes, n_rows, n_rows)) as u64,
        ..s
    }
}

proof fn lemma_full_rows_bound(blocks: Seq<Block>, n_lanes: int, n_rows: int, upto: int)
    requires
        0 <= upto,
    ensures
        full_rows(blocks, n_lanes, n_rows, upto) <= upto,
    decreases upto,
{
    if upto > 0 {
        lemma_full_rows_bound(blocks, n_lanes, n_rows, upto - 1);
    }
}

/// A clearing pass never removes more rows than the board has.
pub proof fn lemma_cleared_bound(blocks: Seq<Block>, n_lanes: int, n_rows: int)
    requires
        0 <= n_lanes,
        0 <= n_rows,
    ensures
        n_lanes * full_rows(blocks, n_lanes, n_rows, n_rows) <= n_lanes * n_rows,
{
    lemma_full_rows_bound(blocks, n_lanes, n_rows, n_rows);
    let f = full_rows(blocks, n_lanes, n_rows, n_rows);
    assert(n_lanes * f <= n_lanes * n_rows) by (nonlinear_arith)
        requires
            0 <= n_lanes,
            f <= n_rows,
    ;
}

impl Game {
    /// Room in the cleared counter for every row of the board.
    pub open spec fn can_clear(self) -> bool {
        self.stats.cleared_blocks + self.n_lanes * self.n_rows <= u64::MAX
    }

    /// Removes every resting block of every full row and counts them as cleared; blocks in
    /// motion never count towards a row. Returns the handles of the removed blocks.
    pub fn clear_filled_rows(&mut self) -> (removed: Vec<u64>)
        requires
            old(self).wf(),
            old(self).can_clear(),
        ensures
            final(self).wf(),
            final(self).blocks@ == spec_remaining(
                old(self).blocks@,
                old(self).n_lanes as int,
                old(self).n_rows as int,
            ),
            removed@ == spec_cleared_ids(
                old(self).blocks@,
                old(self).n_lanes as int,
                old(self).n_rows as int,
            ),
            final(self).stats == stats_after_clear(
                old(self).stats,
                old(self).blocks@,
                old(self).n_lanes as int,
                old(self).n_rows as int,
            ),
            final(self).stats.cleared_blocks == old(self).stats.cleared_blocks + old(self).n_lanes
                * full_rows(old(self).blocks@, old(self).n_lanes as int, old(self).n_rows as int, old(self).n_rows as int),
            final(self).n_lanes == old(self).n_lanes,
            final(self).n_rows == old(self).n_rows,
            final(self).current_tetromino_kind == old(self).current_tetromino_kind,
            final(self).current_tetromino_blocks@ == old(self).current_tetromino_blocks@,
            final(self).current_tetromino_joints@ == old(self).current_tetromino_joints@,
            final(self).next_id == old(self).next_id,
    {
        let ghost blocks = self.blocks@;
        let ghost nl = self.n_lanes as int;
        let ghost nr = self.n_rows as int;
        let n_rows = self.n_rows;
        let n_lanes = self.n_lanes;

        // Resting blocks per row.
        let mut counts: Vec<usize> = Vec::new();
        let mut r: usize = 0;
        while r < n_rows
            invariant
                r <= n_rows,
                counts@.len() == r,
                forall|q: int| 0 <= q < r ==> counts@[q] == 0,
            decreases n_rows - r,
        {
            counts.push(0);
            r = r + 1;
        }
        let mut i: usize = 0;
        while i < self.blocks.len()
            invariant
                self.blocks@ == blocks,
                n_rows == nr,
                side_ok(nr),
                i <= blocks.len(),
                counts@.len() == n_rows,
                forall|q: int|
                    0 <= q < n_rows ==> #[trigger] counts@[q] == row_count(blocks.take(i as int), nr, q)
                        && counts@[q] <= i,
            decreases blocks.len() - i,
        {
            let b = self.blocks[i];
            let ghost prev = counts@;
            proof {
                assert(blocks.take(i + 1).drop_last() =~= blocks.take(i as int));
            }
            if b.asleep {
                match row_index(n_rows, b.y) {
                    Some(q) => {
                        let c = counts[q];
                        counts.set(q, c + 1);
                    },
                    None => {},
                }
            }
            proof {
                assert forall|q: int| 0 <= q < n_rows implies #[trigger] counts@[q] == row_count(
                    blocks.take(i + 1),
                    nr,
                    q,
                ) && counts@[q] <= i + 1 by {
                    assert(prev[q] == row_count(blocks.take(i as int), nr, q));
                }
            }
            i = i + 1;
        }
        proof {
            assert(blocks.take(blocks.len() as int) =~= blocks);
        }

        // Lanes' worth of blocks in full rows.
        proof {
            assert(nl * 0 == 0);
        }
        let mut added: u64 = 0;
        let mut r: usize = 0;
        while r < n_rows
            invariant
                r <= n_rows,
                n_rows == nr,
                n_lanes == nl,
                side_ok(nl),
                side_ok(nr),
                counts@.len() == n_rows,
                forall|q: int| 0 <= q < n_rows ==> #[trigger] counts@[q] == row_count(blocks, nr, q),
                added == nl * full_rows(blocks, nl, nr, r as int),
                full_rows(blocks, nl, nr, r as int) <= r,
            decreases n_rows - r,
        {
            let ghost f = full_rows(blocks, nl, nr, r as int);
            if counts[r] == n_lanes {
                proof {
                    assert(nl * f + nl <= nl * nr) by (nonlinear_arith)
                        requires
                            0 <= nl <= 1048576,
                            0 <= f <= r,
                            r < nr <= 1048576,
                    ;
                    assert(nl * nr <= 1048576 * 1048576) by (nonlinear_arith)
                        requires
                            0 <= nl <= 1048576,
                            0 <= nr <= 1048576,
                    ;
                    assert(nl * (f + 1) == nl * f + nl) by (nonlinear_arith);
                }
                added = added + n_lanes as u64;
            }
            r = r + 1;
        }

        // Keep what is not in a full row.
        let mut kept: Vec<Block> = Vec::new();
        let mut removed: Vec<u64> = Vec::new();
        let mut i: usize = 0;
        while i < self.blocks.len()
            invariant
                self.blocks@ == blocks,
                n_rows == nr,
                n_lanes == nl,
                side_ok(nr),
                i <= blocks.len(),
                counts@.len() == n_rows,
                forall|q: int| 0 <= q < n_rows ==> #[trigger] counts@[q] == row_count(blocks, nr, q),
                kept@ == blocks.take(i as int).filter(keep_pred(blocks, nl, nr)),
                removed@ == ids_of(blocks.take(i as int).filter(clear_pred(blocks, nl, nr))),
            decreases blocks.len() - i,
        {
            let b = self.blocks[i];
            let ghost cleared_before = blocks.take(i as int).filter(clear_pred(blocks, nl, nr));
            proof {
                assert(blocks.take(i + 1) =~= blocks.take(i as int).push(b));
                blocks.take(i as int).lemma_filter_push(b, keep_pred(blocks, nl, nr));
                blocks.take(i as int).lemma_filter_push(b, clear_pred(blocks, nl, nr));
                assert(ids_of(cleared_before.push(b)) =~= ids_of(cleared_before).push(b.id));
            }
            let full = if b.asleep {
                match row_index(n_rows, b.y) {
                    Some(q) => counts[q] == n_lanes,
                    None => false,
                }
            } else {
                false
            };
            if full {
                removed.push(b.id);
            } else {
                kept.push(b);
            }
            i = i + 1;
        }
        proof {
            assert(blocks.take(blocks.len() as int) =~= blocks);
            lemma_cleared_bound(blocks, nl, nr);
            lemma_filter_keeps_handles(blocks, keep_pred(blocks, nl, nr), self.next_id as int);
        }
        self.blocks = kept;
        self.stats.cleared_blocks = self.stats.cleared_blocks + added;
        removed
    }
}

/// A resting block on the board leaves in a clearing pass exactly when its row holds one
/// resting block per lane; with more or fewer it stays.
pub proof fn lemma_full_row_cleared(blocks: Seq<Block>, n_lanes: int, n_rows: int, b: Block)
    requires
        blocks.contains(b),
        b.asleep,
        0 <= spec_row_of(n_rows, b.y as int) < n_rows,
    ensures
        !spec_remaining(blocks, n_lanes, n_rows).contains(b) <==> row_count(
            blocks,
            n_rows,
            spec_row_of(n_rows, b.y as int),
        ) == n_lanes,
{
    let keep = keep_pred(blocks, n_lanes, n_rows);
    let rest = blocks.filter(keep);
    let i = choose|i: int| 0 <= i < blocks.len() && blocks[i] == b;
    if keep(b) {
        blocks.lemma_filter_contains(keep, i);
    }
    if rest.contains(b) {
        let j = choose|j: int| 0 <= j < rest.len() && rest[j] == b;
        blocks.lemma_filter_pred(keep, j);
    }
}

/// A block in motion changes no row count.
proof fn lemma_moving_row_count(blocks: Seq<Block>, n_rows: int, b: Block, r: int)
    requires
        !b.asleep,
    ensures
        row_count(blocks.push(b), n_rows, r) == row_count(blocks, n_rows, r),
{
    assert(blocks.push(b).drop_last() =~= blocks);
}

/// A block in motion changes no full-row count.
proof fn lemma_moving_full_rows(blocks: Seq<Block>, n_lanes: int, n_rows: int, b: Block, upto: int)
    requires
        !b.asleep,
    ensures
        full_rows(blocks.push(b), n_lanes, n_rows, upto) == full_rows(blocks, n_lanes, n_rows, upto),
    decreases upto,
{
    if upto > 0 {
        lemma_moving_row_count(blocks, n_rows, b, upto - 1);
        lemma_moving_full_rows(blocks, n_lanes, n_rows, b, upto - 1);
    }
}

/// Blocks in motion never count towards a row: adding one, wherever it lies, clears the
/// same blocks and the same number of rows, and the moving block itself stays.
pub proof fn lemma_moving_block_ignored(blocks: Seq<Block>, n_lanes: int, n_rows: int, b: Block)
    requires
        !b.asleep,
    ensures
        spec_remaining(blocks.push(b), n_lanes, n_rows) == spec_remaining(blocks, n_lanes, n_rows).push(b),
        spec_cleared_ids(blocks.push(b), n_lanes, n_rows) == spec_cleared_ids(blocks, n_lanes, n_rows),
        full_rows(blocks.push(b), n_lanes, n_rows, n_rows) == full_rows(blocks, n_lanes, n_rows, n_rows),
{
    let with = blocks.push(b);
    assert forall|c: Block| is_cleared(with, n_lanes, n_rows, c) == is_cleared(blocks, n_lanes, n_rows, c) by {
        lemma_moving_row_count(blocks, n_rows, b, spec_row_of(n_rows, c.y as int));
    }
    assert(keep_pred(with, n_lanes, n_rows) =~= keep_pred(blocks, n_lanes, n_rows));
    assert(clear_pred(with, n_lanes, n_rows) =~= clear_pred(blocks, n_lanes, n_rows));
    blocks.lemma_filter_push(b, keep_pred(blocks, n_lanes, n_rows));
    blocks.lemma_filter_push(b, clear_pred(blocks, n_lanes, n_rows));
    lemma_moving_full_rows(blocks, n_lanes, n_rows, b, n_rows);
}

/// Dropping blocks keeps handles distinct and below the next handle.
pub proof fn lemma_filter_keeps_handles(blocks: Seq<Block>, p: spec_fn(Block) -> bool, next_id: int)
    requires
        handles_ok(blocks, next_id),
    ensures
        handles_ok(blocks.filter(p), next_id),
    decreases blocks.len(),
{
    reveal(Seq::filter);
    if blocks.len() > 0 {
        let rest = blocks.drop_last();
        assert(handles_ok(rest, next_id)) by {
            assert forall|i: int| 0 <= i < rest.len() implies rest[i] == blocks[i] by {}
        }
        lemma_filter_keeps_handles(rest, p, next_id);
        let fr = rest.filter(p);
        if p(blocks.last()) {
            assert forall|i: int| 0 <= i < fr.len() implies fr[i].id != blocks.last().id by {
                rest.lemma_filter_contains_rev(p, fr[i]);
                let k = choose|k: int| 0 <= k < rest.len() && rest[k] == fr[i];
                assert(blocks[k] == rest[k]);
            }
        }
    }
}

} // verus!
