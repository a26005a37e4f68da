use vstd::prelude::*;

verus! {

/// The seven piece shapes.
#[derive(Clone, Copy, Debug, PartialEq, Eq, Structural)]
pub enum TetrominoKind {
    I,
    O,
    T,
    J,
    L,
    S,
    Z,
}

/// Number of piece kinds.
pub const KIND_COUNT: u32 = 7;

/// The four block offsets `(lane, row)` of a piece, and the pairs of offset indices that
/// are pinned together while the piece falls.
#[derive(Debug)]
pub struct TetrominoLayout {
    pub coords: [(i32, i32); 4],
    pub joints: Vec<(usize, usize)>,
}

/// The kind that a draw `n` selects: `0..6` in catalog order, anything larger is `Z`.
pub open spec fn spec_kind_of_index(n: int) -> TetrominoKind {
    if n == 0 {
        TetrominoKind::I
    } else if n == 1 {
        TetrominoKind::O
    } else if n == 2 {
        TetrominoKind::T
    } else if n == 3 {
        TetrominoKind::J
    } else if n == 4 {
        TetrominoKind::L
    } else if n == 5 {
        TetrominoKind::S
    } else {
        TetrominoKind::Z
    }
}

/// The position of a kind in catalog order.
pub open spec fn spec_kind_index(k: TetrominoKind) -> nat {
    match k {
        TetrominoKind::I => 0,
        TetrominoKind::O => 1,
        TetrominoKind::T => 2,
        TetrominoKind::J => 3,
        TetrominoKind::L => 4,
        TetrominoKind::S => 5,
        TetrominoKind::Z => 6,
    }
}

/// Block offsets of each kind.
pub open spec fn spec_coords(k: TetrominoKind) -> Seq<(int, int)> {
    match k {
        TetrominoKind::I => seq![(1, 1), (1, 0), (1, -1), (1, -2)],
        TetrominoKind::O => seq![(0, 0), (1, 0), (1, -1), (0, -1)],
        TetrominoKind::T => seq![(0, 0), (1, 0), (2, 0), (1, -1)],
        TetrominoKind::J => seq![(1, 0), (1, -1), (1, -2), (0, -2)],
        TetrominoKind::L => seq![(1, 0), (1, -1), (1, -2), (2, -2)],
        TetrominoKind::S => seq![(0, -1), (1, -1), (1, 0), (2, 0)],
        TetrominoKind::Z => seq![(0, 0), (1, 0), (1, -1), (2, -1)],
    }
}

/// Joint pairs of each kind; the square keeps its closing pin `1-0` beside `0-1`.
pub open spec fn spec_joints(k: TetrominoKind) -> Seq<(usize, usize)> {
    match k {
        TetrominoKind::O => seq![(0, 1), (1, 2), (2, 3), (1, 0)],
        TetrominoKind::T => seq![(0, 1), (1, 2), (1, 3)],
        _ => seq![(0, 1), (1, 2), (2, 3)],
    }
}

/// Offsets as pairs of mathematical integers.
pub open spec fn coords_view(coords: [(i32, i32); 4]) -> Seq<(int, int)> {
    coords@.map_values(|c: (i32, i32)| (c.0 as int, c.1 as int))
}

/// A layout with four offsets whose joints name offsets that exist.
pub open spec fn layout_valid(coords: Seq<(int, int)>, joints: Seq<(usize, usize)>) -> bool {
    &&& coords.len() == 4
    &&& forall|j: int| 0 <= j < joints.len() ==> joints[j].0 < 4 && joints[j].1 < 4
}

/// Relies on rand::thread_rng and rand::Rng::gen_range: a value drawn from `0..n`.
#[verifier::external_body]
fn draw_below(n: u32) -> (r: u32)
    requires
        n > 0,
    ensures
        r < n,
{
    rand::Rng::gen_range(&mut rand::thread_rng(), 0..n)
}

impl TetrominoKind {
    /// The kind that the draw `n` selects.
    pub fn from_index(n: u32) -> (r: TetrominoKind)
        ensures
            r == spec_kind_of_index(n as int),
    {
        match n {
            0 => TetrominoKind::I,
            1 => TetrominoKind::O,
            2 => TetrominoKind::T,
            3 => TetrominoKind::J,
            4 => TetrominoKind::L,
            5 => TetrominoKind::S,
            _ => TetrominoKind::Z,
        }
    }

    /// The position of this kind in catalog order, used to pick its colour.
    pub fn index(&self) -> (r: usize)
        ensures
            r == spec_kind_index(*self),
            r < KIND_COUNT,
    {
        match self {
            TetrominoKind::I => 0,
            TetrominoKind::O => 1,
            TetrominoKind::T => 2,
            TetrominoKind::J => 3,
            TetrominoKind::L => 4,
            TetrominoKind::S => 5,
            TetrominoKind::Z => 6,
        }
    }

    /// A kind drawn uniformly at random.
    pub fn random() -> (r: TetrominoKind)
        ensures
            exists|n: int| 0 <= n < KIND_COUNT && r == spec_kind_of_index(n),
    {
        let n = draw_below(KIND_COUNT);
        TetrominoKind::from_index(n)
    }

    /// The offsets and joints of this kind.
    pub fn layout(&self) -> (r: TetrominoLayout)
        ensures
            coords_view(r.coords) == spec_coords(*self),
            r.joints@ == spec_joints(*self),
    {
        let r = match self {
            TetrominoKind::I => TetrominoLayout {
                coords: [(1, 1), (1, 0), (1, -1), (1, -2)],
                joints: vec![(0, 1), (1, 2), (2, 3)],
            },
            TetrominoKind::O => TetrominoLayout {
                coords: [(0, 0), (1, 0), (1, -1), (0, -1)],
                joints: vec![(0, 1), (1, 2), (2, 3), (1, 0)],
            },
            TetrominoKind::T => TetrominoLayout {
                coords: [(0, 0), (1, 0), (2, 0), (1, -1)],
                joints: vec![(0, 1), (1, 2), (1, 3)],
            },
            TetrominoKind::J => TetrominoLayout {
                coords: [(1, 0), (1, -1), (1, -2), (0, -2)],
                joints: vec![(0, 1), (1, 2), (2, 3)],
            },
            TetrominoKind::L => TetrominoLayout {
                coords: [(1, 0), (1, -1), (1, -2), (2, -2)],
                joints: vec![(0, 1), (1, 2), (2, 3)],
            },
            TetrominoKind::S => TetrominoLayout {
                coords: [(0, -1), (1, -1), (1, 0), (2, 0)],
                joints: vec![(0, 1), (1, 2), (2, 3)],
            },
            TetrominoKind::Z => TetrominoLayout {
                coords: [(0, 0), (1, 0), (1, -1), (2, -1)],
                joints: vec![(0, 1), (1, 2), (2, 3)],
            },
        };
        assert(coords_view(r.coords) =~= spec_coords(*self));
        assert(r.joints@ =~= spec_joints(*self));
        r
    }
}

/// Every kind's layout has four offsets and joints between existing offsets only.
pub proof fn lemma_layouts_valid(k: TetrominoKind)
    ensures
        layout_valid(spec_coords(k), spec_joints(k)),
{
}

/// The square has four joints, every other kind three.
pub proof fn lemma_joint_counts(k: TetrominoKind)
    ensures
        spec_joints(k).len() == if k == TetrominoKind::O { 4nat } else { 3nat },
{
}

} // verus!
