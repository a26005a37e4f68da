use vstd::prelude::*;
use crate::game::{Block, Game};

verus! {

/// Lateral force set on each block of the active piece while a move key is held.
pub const MOVEMENT_FORCE: i64 = 20;

/// Torque set on each block of the active piece while a turn key is held.
pub const TORQUE: i64 = 20;

/// What to set on one block for the next physics step; `None` leaves it as it is.
#[derive(Clone, Copy, Debug, PartialEq, Eq)]
pub struct BlockPush {
    pub block: u64,
    pub force_x: Option<i64>,
    pub torque: Option<i64>,
}

/// The axis value of two opposed keys: `1`, `-1`, or `0` when both or neither are held.
pub open spec fn spec_axis(negative: bool, positive: bool) -> int {
    (if positive { 1int } else { 0int }) - (if negative { 1int } else { 0int })
}

/// Whether a block with handle `id` is in `blocks`.
pub open spec fn is_present(blocks: Seq<Block>, id: u64) -> bool {
    exists|i: int| 0 <= i < blocks.len() && blocks[i].id == id
}

/// The handles of `blocks` that are present.
pub open spec fn present_pred(blocks: Seq<Block>) -> spec_fn(u64) -> bool {
    |id: u64| is_present(blocks, id)
}

/// The push for block `id` under the given axis values.
pub open spec fn spec_push(id: u64, movement: int, torque: int) -> BlockPush {
    BlockPush {
        block: id,
        force_x: if movement != 0 { Some((movement * MOVEMENT_FORCE) as i64) } else { None },
        torque: if torque != 0 { Some((torque * TORQUE) as i64) } else { None },
    }
}

/// The pushes for the blocks of the active piece of `g` that are still in the world, in
/// the piece's order; none while no key is held.
pub open spec fn spec_movement(g: Game, movement: int, torque: int) -> Seq<BlockPush> {
    if movement == 0 && torque == 0 {
        Seq::empty()
    } else {
        g.current_tetromino_blocks@.filter(present_pred(g.blocks@)).map_values(
            |id: u64| spec_push(id, movement, torque),
        )
    }
}

/// The axis value of two opposed keys.
pub fn input_axis(negative: bool, positive: bool) -> (r: i64)
    ensures
        r == spec_axis(negative, positive),
{
    let p: i64 = if positive { 1 } else { 0 };
    let n: i64 = if negative { 1 } else { 0 };
    p - n
}

impl Game {
    /// The force and torque to set on the active piece for the given axis values: force
    /// along x only, replacing any earlier one; blocks that have left the world are skipped.
    pub fn tetromino_movement(&self, movement: i64, torque: i64) -> (r: Vec<BlockPush>)
        requires
            -1 <= movement <= 1,
            -1 <= torque <= 1,
        ensures
            r@ == spec_movement(*self, movement as int, torque as int),
    {
        let mut r: Vec<BlockPush> = Vec::new();
        if movement == 0 && torque == 0 {
            return r;
        }
        let force_x = if movement != 0 { Some(movement * MOVEMENT_FORCE) } else { None };
        let turn = if torque != 0 { Some(torque * TORQUE) } else { None };
        let ghost ids = self.current_tetromino_blocks@;
        let ghost f = |id: u64| spec_push(id, movement as int, torque as int);
        let mut i: usize = 0;
        while i < self.current_tetromino_blocks.len()
            invariant
                i <= ids.len(),
                ids == self.current_tetromino_blocks@,
                force_x == spec_push(0, movement as int, torque as int).force_x,
                turn == spec_push(0, movement as int, torque as int).torque,
                f == (|id: u64| spec_push(id, movement as int, torque as int)),
                r@ == ids.take(i as int).filter(present_pred(self.blocks@)).map_values(f),
            decreases ids.len() - i,
        {
            let id = self.current_tetromino_blocks[i];
            let ghost prefix = ids.take(i as int).filter(present_pred(self.blocks@));
            proof {
                assert(ids.take(i + 1) =~= ids.take(i as int).push(id));
                ids.take(i as int).lemma_filter_push(id, present_pred(self.blocks@));
                assert(prefix.push(id).map_values(f) =~= prefix.map_values(f).push(f(id)));
            }
            match self.find_block(id) {
                Some(_) => {
                    r.push(BlockPush { block: id, force_x, torque: turn });
                },
                None => {},
            }
            i = i + 1;
        }
        proof {
            assert(ids.take(ids.len() as int) =~= ids);
        }
        r
    }
}

} // verus!
