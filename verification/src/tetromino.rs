//! The tetromino model: the seven piece kinds, their hand-authored rotation
//! state tables, and the falling-piece instance with its anchor position.

use vstd::prelude::*;

verus! {

/// A coordinate in field space (column or row).
pub type PositionIndex = i32;

/// An (x, y) pair: column and row.
pub type Position = (PositionIndex, PositionIndex);

/// The four (dx, dy) cell offsets of one rotation state of a piece.
pub type TetrominoRotation = [Position; 4];

/// The seven canonical piece shapes.
#[derive(Clone, Copy, Debug, PartialEq, Eq, Structural)]
pub enum TetrominoType {
    Square,
    Line,
    T,
    L,
    J,
    S,
    Z,
}

impl TetrominoType {
    /// How many distinct rotation states this kind has.
    pub open spec fn spec_num_rotations(&self) -> usize {
        match self {
            TetrominoType::Square => 1,
            TetrominoType::Line => 2,
            TetrominoType::T => 4,
            TetrominoType::L => 4,
            TetrominoType::J => 4,
            TetrominoType::S => 2,
            TetrominoType::Z => 2,
        }
    }

    /// How many distinct rotation states this kind has.
    #[verifier::when_used_as_spec(spec_num_rotations)]
    pub fn get_num_rotations(&self) -> (n: usize)
        ensures
            n == self.spec_num_rotations(),
    {
        match self {
            TetrominoType::Square => 1,
            TetrominoType::Line => 2,
            TetrominoType::T => 4,
            TetrominoType::L => 4,
            TetrominoType::J => 4,
            TetrominoType::S => 2,
            TetrominoType::Z => 2,
        }
    }

    /// The fixed table behind `kind_of_index`: each of the seven indices
    /// names a distinct kind.
    pub open spec fn spec_kind_of_index(i: int) -> TetrominoType {
        if i == 0 {
            TetrominoType::Square
        } else if i == 1 {
            TetrominoType::Line
        } else if i == 2 {
            TetrominoType::T
        } else if i == 3 {
            TetrominoType::L
        } else if i == 4 {
            TetrominoType::J
        } else if i == 5 {
            TetrominoType::S
        } else {
            TetrominoType::Z
        }
    }

    /// The kind at the given index of the fixed seven-kind table.
    pub fn kind_of_index(i: usize) -> (k: TetrominoType)
        requires
            i < 7,
        ensures
            k == TetrominoType::spec_kind_of_index(i as int),
    {
        match i {
            0 => TetrominoType::Square,
            1 => TetrominoType::Line,
            2 => TetrominoType::T,
            3 => TetrominoType::L,
            4 => TetrominoType::J,
            5 => TetrominoType::S,
            _ => TetrominoType::Z,
        }
    }

    /// Pick one of the seven kinds uniformly at random: a uniformly random
    /// index, sent through the fixed index-to-kind table.
    pub fn random() -> Self {
        Self::kind_of_index(random_below(7))
    }
}

/// Relies on rand::random_range: a uniformly random value in the given
/// range; it panics only when the range is empty.
#[verifier::external_body]
fn random_below(n: usize) -> (r: usize)
    requires
        0 < n,
    ensures
        r < n,
{
    rand::random_range(0..n)
}

/// The canonical shape table: the four (dx, dy) offsets that the given kind
/// occupies in the given rotation state, relative to the piece's anchor.
pub open spec fn shape_offsets(kind: TetrominoType, rotation: int) -> Seq<Position> {
    match kind {
        TetrominoType::Square => seq![(0i32, 0i32), (0i32, 1i32), (1i32, 0i32), (1i32, 1i32)],
        TetrominoType::Line => {
            if rotation == 0 {
                // vertical
                seq![(0i32, -1i32), (0i32, 0i32), (0i32, 1i32), (0i32, 2i32)]
            } else {
                // horizontal
                seq![(-1i32, 0i32), (0i32, 0i32), (1i32, 0i32), (2i32, 0i32)]
            }
        },
        TetrominoType::T => {
            if rotation == 0 {
                // upright
                seq![(-1i32, 0i32), (0i32, 0i32), (1i32, 0i32), (0i32, 1i32)]
            } else if rotation == 1 {
                // pointing right
                seq![(0i32, -1i32), (0i32, 0i32), (0i32, 1i32), (1i32, 0i32)]
            } else if rotation == 2 {
                // upside down
                seq![(-1i32, 0i32), (0i32, 0i32), (1i32, 0i32), (0i32, -1i32)]
            } else {
                // pointing left
                seq![(0i32, -1i32), (0i32, 0i32), (0i32, 1i32), (-1i32, 0i32)]
            }
        },
        TetrominoType::L => {
            if rotation == 0 {
                seq![(0i32, -1i32), (0i32, 0i32), (0i32, 1i32), (1i32, 1i32)]
            } else if rotation == 1 {
                seq![(-1i32, 0i32), (0i32, 0i32), (1i32, 0i32), (-1i32, 1i32)]
            } else if rotation == 2 {
                seq![(0i32, -1i32), (0i32, 0i32), (0i32, 1i32), (-1i32, -1i32)]
            } else {
                seq![(-1i32, 0i32), (0i32, 0i32), (1i32, 0i32), (1i32, -1i32)]
            }
        },
        TetrominoType::J => {
            if rotation == 0 {
                seq![(0i32, -1i32), (0i32, 0i32), (0i32, 1i32), (-1i32, 1i32)]
            } else if rotation == 1 {
                seq![(-1i32, 0i32), (0i32, 0i32), (1i32, 0i32), (-1i32, -1i32)]
            } else if rotation == 2 {
                seq![(0i32, -1i32), (0i32, 0i32), (0i32, 1i32), (1i32, -1i32)]
            } else {
                seq![(-1i32, 0i32), (0i32, 0i32), (1i32, 0i32), (1i32, 1i32)]
            }
        },
        TetrominoType::S => {
            if rotation == 0 {
                // horizontal
                seq![(1i32, 0i32), (0i32, 0i32), (0i32, 1i32), (-1i32, 1i32)]
            } else {
                // vertical
                seq![(-1i32, -1i32), (-1i32, 0i32), (0i32, 0i32), (0i32, 1i32)]
            }
        },
        TetrominoType::Z => {
            if rotation == 0 {
                // horizontal
                seq![(-1i32, 0i32), (0i32, 0i32), (0i32, 1i32), (1i32, 1i32)]
            } else {
                // vertical
                seq![(0i32, -1i32), (0i32, 0i32), (-1i32, 0i32), (-1i32, 1i32)]
            }
        },
    }
}

/// The mathematical state of a falling piece: kind, rotation state index,
/// and anchor position.
pub ghost struct PieceView {
    pub kind: TetrominoType,
    pub rotation: int,
    pub pos: (int, int),
}

impl PieceView {
    /// The rotation state index is valid for the kind.
    pub open spec fn wf(self) -> bool {
        0 <= self.rotation < self.kind.spec_num_rotations()
    }

    /// The (dx, dy) offsets of the piece in its current rotation state.
    pub open spec fn offsets(self) -> Seq<Position> {
        shape_offsets(self.kind, self.rotation)
    }

    /// The four absolute field cells the piece occupies: anchor + offset.
    pub open spec fn cells(self) -> Seq<(int, int)> {
        self.offsets().map_values(|o: Position| (self.pos.0 + o.0, self.pos.1 + o.1))
    }

    /// Advancing the rotation state by one, wrapping at the kind's count.
    pub open spec fn spec_rotate(self) -> PieceView {
        PieceView { rotation: (self.rotation + 1) % (self.kind.spec_num_rotations() as int), ..self }
    }
}

/// Every offset in the shape table is small: both coordinates lie in
/// `[-1, 2]`.
pub proof fn lemma_offsets_bounded(kind: TetrominoType, rotation: int)
    ensures
        forall|i: int|
            0 <= i < shape_offsets(kind, rotation).len() ==> {
                &&& -1 <= (#[trigger] shape_offsets(kind, rotation)[i]).0 <= 2
                &&& -1 <= shape_offsets(kind, rotation)[i].1 <= 2
            },
{
}

/// Every rotation state's shape holds the offset (0, 0): the anchor itself
/// is one of the piece's occupied cells.
pub proof fn lemma_anchor_cell(kind: TetrominoType, rotation: int)
    ensures
        exists|i: int|
            0 <= i < shape_offsets(kind, rotation).len() && shape_offsets(kind, rotation)[i]
                == (0i32, 0i32),
{
    match kind {
        TetrominoType::Square => {
            assert(shape_offsets(kind, rotation)[0] == (0i32, 0i32));
        },
        TetrominoType::Line => {
            assert(shape_offsets(kind, rotation)[1] == (0i32, 0i32));
        },
        TetrominoType::T => {
            assert(shape_offsets(kind, rotation)[1] == (0i32, 0i32));
        },
        TetrominoType::L => {
            assert(shape_offsets(kind, rotation)[1] == (0i32, 0i32));
        },
        TetrominoType::J => {
            assert(shape_offsets(kind, rotation)[1] == (0i32, 0i32));
        },
        TetrominoType::S => {
            if rotation == 0 {
                assert(shape_offsets(kind, rotation)[1] == (0i32, 0i32));
            } else {
                assert(shape_offsets(kind, rotation)[2] == (0i32, 0i32));
            }
        },
        TetrominoType::Z => {
            assert(shape_offsets(kind, rotation)[1] == (0i32, 0i32));
        },
    }
}

/// The piece after `n` single rotations.
pub open spec fn spec_rotate_n(p: PieceView, n: nat) -> PieceView
    decreases n,
{
    if n == 0 {
        p
    } else {
        spec_rotate_n(p, (n - 1) as nat).spec_rotate()
    }
}

proof fn lemma_rotate_n_state(p: PieceView, n: nat)
    requires
        p.wf(),
    ensures
        spec_rotate_n(p, n).kind == p.kind,
        spec_rotate_n(p, n).pos == p.pos,
        spec_rotate_n(p, n).rotation == (p.rotation + n) % (p.kind.spec_num_rotations() as int),
    decreases n,
{
    let c = p.kind.spec_num_rotations() as int;
    if n == 0 {
        vstd::arithmetic::div_mod::lemma_small_mod(p.rotation as nat, c as nat);
    } else {
        lemma_rotate_n_state(p, (n - 1) as nat);
        let a = p.rotation + n - 1;
        assert(spec_rotate_n(p, n).rotation == (a % c + 1) % c);
        if c == 1 {
            assert((a % c + 1) % c == (a + 1) % c) by {
                vstd::arithmetic::div_mod::lemma_mod_self_0(c);
                vstd::arithmetic::div_mod::lemma_add_mod_noop(a, 1, c);
            }
        } else {
            assert((a % c + 1) % c == (a + 1) % c) by {
                vstd::arithmetic::div_mod::lemma_small_mod(1nat, c as nat);
                vstd::arithmetic::div_mod::lemma_add_mod_noop(a, 1, c);
            }
        }
    }
}

/// Law: a full rotation cycle is the identity.  Applying `rotate` as many
/// times as the piece's kind has rotation states returns the piece to its
/// original state, and the rotation state index always stays in
/// `[0, count)`.
pub proof fn lemma_rotation_cycle(p: PieceView)
    requires
        p.wf(),
    ensures
        spec_rotate_n(p, p.kind.spec_num_rotations() as nat) == p,
        forall|n: nat| #[trigger] spec_rotate_n(p, n).wf(),
{
    let c = p.kind.spec_num_rotations() as int;
    lemma_rotate_n_state(p, p.kind.spec_num_rotations() as nat);
    assert((p.rotation + c) % c == p.rotation) by {
        vstd::arithmetic::div_mod::lemma_mod_add_multiples_vanish(p.rotation, c);
        vstd::arithmetic::div_mod::lemma_small_mod(p.rotation as nat, c as nat);
    }
    assert forall|n: nat| #[trigger] spec_rotate_n(p, n).wf() by {
        lemma_rotate_n_state(p, n);
        vstd::arithmetic::div_mod::lemma_mod_pos_bound(p.rotation + n, c);
    }
}

/// A falling piece instance.
#[derive(Clone, Copy, Debug)]
pub struct Tetromino {
    pub tetromino_type: TetrominoType,
    pub rotation: usize,
    pub position: Position,
}

impl View for Tetromino {
    type V = PieceView;

    open spec fn view(&self) -> PieceView {
        PieceView {
            kind: self.tetromino_type,
            rotation: self.rotation as int,
            pos: (self.position.0 as int, self.position.1 as int),
        }
    }
}

/// The fixed spawn anchor: column 5, one row above the visible field.
pub open spec fn spawn_pos() -> (int, int) {
    (5, 20)
}

impl Tetromino {
    /// A fresh piece of the given kind, in rotation state 0, at the spawn
    /// anchor.
    pub fn new(tetromino_type: TetrominoType) -> (t: Self)
        ensures
            t@ == (PieceView { kind: tetromino_type, rotation: 0, pos: spawn_pos() }),
            t@.wf(),
    {
        Self { tetromino_type, rotation: 0, position: (5, 20) }
    }

    /// A fresh piece of a uniformly random kind at the spawn anchor.
    pub fn random() -> (t: Self)
        ensures
            t@.rotation == 0,
            t@.pos == spawn_pos(),
            t@.wf(),
    {
        Self::new(TetrominoType::random())
    }

    /// Advance the rotation state by one, wrapping modulo the kind's
    /// rotation count.  The anchor and kind are unchanged.
    pub fn rotate(&mut self)
        requires
            old(self)@.wf(),
        ensures
            final(self)@ == old(self)@.spec_rotate(),
            final(self)@.wf(),
    {
        self.rotation = (self.rotation + 1) % self.tetromino_type.get_num_rotations();
    }

    /// The four (dx, dy) offsets of the piece in its current rotation state:
    /// a pure lookup in the shape table.
    pub fn get_positions(&self) -> (r: TetrominoRotation)
        requires
            self@.wf(),
        ensures
            r@ == self@.offsets(),
    {
        let r: TetrominoRotation = match self.tetromino_type {
            TetrominoType::Square => [(0, 0), (0, 1), (1, 0), (1, 1)],
            TetrominoType::Line => {
                if self.rotation == 0 {
                    [(0, -1), (0, 0), (0, 1), (0, 2)]
                } else {
                    [(-1, 0), (0, 0), (1, 0), (2, 0)]
                }
            },
            TetrominoType::T => {
                if self.rotation == 0 {
                    [(-1, 0), (0, 0), (1, 0), (0, 1)]
                } else if self.rotation == 1 {
                    [(0, -1), (0, 0), (0, 1), (1, 0)]
                } else if self.rotation == 2 {
                    [(-1, 0), (0, 0), (1, 0), (0, -1)]
                } else {
                    [(0, -1), (0, 0), (0, 1), (-1, 0)]
                }
            },
            TetrominoType::L => {
                if self.rotation == 0 {
                    [(0, -1), (0, 0), (0, 1), (1, 1)]
                } else if self.rotation == 1 {
                    [(-1, 0), (0, 0), (1, 0), (-1, 1)]
                } else if self.rotation == 2 {
                    [(0, -1), (0, 0), (0, 1), (-1, -1)]
                } else {
                    [(-1, 0), (0, 0), (1, 0), (1, -1)]
                }
            },
            TetrominoType::J => {
                if self.rotation == 0 {
                    [(0, -1), (0, 0), (0, 1), (-1, 1)]
                } else if self.rotation == 1 {
                    [(-1, 0), (0, 0), (1, 0), (-1, -1)]
                } else if self.rotation == 2 {
                    [(0, -1), (0, 0), (0, 1), (1, -1)]
                } else {
                    [(-1, 0), (0, 0), (1, 0), (1, 1)]
                }
            },
            TetrominoType::S => {
                if self.rotation == 0 {
                    [(1, 0), (0, 0), (0, 1), (-1, 1)]
                } else {
                    [(-1, -1), (-1, 0), (0, 0), (0, 1)]
                }
            },
            TetrominoType::Z => {
                if self.rotation == 0 {
                    [(-1, 0), (0, 0), (0, 1), (1, 1)]
                } else {
                    [(0, -1), (0, 0), (-1, 0), (-1, 1)]
                }
            },
        };
        proof {
            assert(r@ =~= self@.offsets());
        }
        r
    }
}

} // verus!
