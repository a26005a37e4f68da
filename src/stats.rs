use vstd::prelude::*;

verus! {

/// Block counters of one session, and whether the falling piece was lost.
///
/// The counters only grow; `lost_tetromino` is set once and never reset.
#[derive(Clone, Copy, Debug, PartialEq, Eq, Structural)]
pub struct Stats {
    pub generated_blocks: u64,
    pub cleared_blocks: u64,
    pub lost_blocks: u64,
    pub lost_tetromino: bool,
}

/// A health value as an exact fraction `numerator / denominator`.
#[derive(Clone, Copy, Debug, PartialEq, Eq, Structural)]
pub struct Health {
    pub numerator: i128,
    pub denominator: u128,
}

impl Health {
    /// The fraction as a pair of mathematical integers.
    pub open spec fn view(self) -> (int, int) {
        (self.numerator as int, self.denominator as int)
    }

    /// Whether the health is strictly above zero, the condition for spawning another piece.
    pub fn is_positive(&self) -> (r: bool)
        requires
            self.denominator > 0,
        ensures
            r == (self.numerator > 0),
    {
        self.numerator > 0
    }
}

/// Health as `(numerator, denominator)`: zero once the falling piece is lost; with nothing
/// cleared yet, zero if any block was lost and one otherwise; else `1 - lost / cleared`,
/// which is `(cleared - lost) / cleared` and may be negative.
pub open spec fn spec_health(s: Stats) -> (int, int) {
    if s.lost_tetromino {
        (0, 1)
    } else if s.cleared_blocks == 0 {
        if s.lost_blocks > 0 {
            (0, 1)
        } else {
            (1, 1)
        }
    } else {
        (s.cleared_blocks - s.lost_blocks, s.cleared_blocks as int)
    }
}

impl Stats {
    /// Fresh counters.
    pub open spec fn spec_new() -> Stats {
        Stats { generated_blocks: 0, cleared_blocks: 0, lost_blocks: 0, lost_tetromino: false }
    }

    /// A session with nothing generated, cleared or lost.
    pub fn new() -> (r: Stats)
        ensures
            r == Stats::spec_new(),
    {
        Stats { generated_blocks: 0, cleared_blocks: 0, lost_blocks: 0, lost_tetromino: false }
    }

    /// The current health; it is positive exactly when another piece may be spawned.
    pub fn health(&self) -> (r: Health)
        ensures
            r@ == spec_health(*self),
            r.denominator > 0,
    {
        if self.lost_tetromino {
            Health { numerator: 0, denominator: 1 }
        } else if self.cleared_blocks == 0 {
            if self.lost_blocks > 0 {
                Health { numerator: 0, denominator: 1 }
            } else {
                Health { numerator: 1, denominator: 1 }
            }
        } else {
            let numerator = self.cleared_blocks as i128 - self.lost_blocks as i128;
            Health { numerator, denominator: self.cleared_blocks as u128 }
        }
    }
}

impl Default for Stats {
    fn default() -> (r: Stats)
        ensures
            r == Stats::spec_new(),
    {
        Stats::new()
    }
}

/// A lost piece means zero health whatever the counters say.
pub proof fn lemma_lost_tetromino_zero_health(s: Stats)
    requires
        s.lost_tetromino,
    ensures
        spec_health(s).0 == 0,
        spec_health(s).1 > 0,
{
}

} // verus!
