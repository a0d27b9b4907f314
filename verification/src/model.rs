//! The mathematical model of the puzzle: pieces as stickers on lattice
//! directions, the table of 27 slots, and what a quarter turn does to it.

use crate::cube::{Color, Direction, Face};
use crate::linalg::{Mat3, Vec3};
use vstd::prelude::*;

verus! {

/// The model of a [`crate::cube::Piece`]: each sticker colour is bound to the
/// direction it faces, given as a lattice vector.
pub enum PieceView {
    /// The core of the puzzle, without stickers.
    Middle,
    /// One sticker.
    Center(Vec3, Color),
    /// Two stickers; the first colour faces the first direction.
    Edge(Vec3, Vec3, Color, Color),
    /// Three stickers; colour number `k` faces direction number `k`.
    Corner(Vec3, Vec3, Vec3, Color, Color, Color),
}

/// `v` is the outward normal of one of the six faces.
pub open spec fn is_normal(v: Vec3) -> bool {
    Face::facing(v) is Some
}

impl PieceView {
    /// Where the piece sits: the sum of the directions its stickers face.
    pub open spec fn coordinate(self) -> Vec3 {
        match self {
            PieceView::Middle => Vec3::zero(),
            PieceView::Center(v, _) => v,
            PieceView::Edge(v1, v2, _, _) => v1.plus(v2),
            PieceView::Corner(v1, v2, v3, _, _, _) => v1.plus(v2).plus(v3),
        }
    }

    /// The colour of the sticker that faces `dir`, if the piece has one.
    pub open spec fn color(self, dir: Vec3) -> Option<Color> {
        match self {
            PieceView::Middle => None,
            PieceView::Center(v, c) => if dir == v {
                Some(c)
            } else {
                None
            },
            PieceView::Edge(v1, v2, c1, c2) => if dir == v1 {
                Some(c1)
            } else if dir == v2 {
                Some(c2)
            } else {
                None
            },
            PieceView::Corner(v1, v2, v3, c1, c2, c3) => if dir == v1 {
                Some(c1)
            } else if dir == v2 {
                Some(c2)
            } else if dir == v3 {
                Some(c3)
            } else {
                None
            },
        }
    }

    /// The piece with every direction mapped through `m`; each colour stays
    /// with its direction slot.
    pub open spec fn rotated(self, m: Mat3) -> PieceView {
        match self {
            PieceView::Middle => PieceView::Middle,
            PieceView::Center(v, c) => PieceView::Center(m.apply(v), c),
            PieceView::Edge(v1, v2, c1, c2) => PieceView::Edge(m.apply(v1), m.apply(v2), c1, c2),
            PieceView::Corner(v1, v2, v3, c1, c2, c3) => PieceView::Corner(
                m.apply(v1),
                m.apply(v2),
                m.apply(v3),
                c1,
                c2,
                c3,
            ),
        }
    }

    /// The directions are face normals, and those of one piece are mutually
    /// orthogonal.
    pub open spec fn well_formed(self) -> bool {
        match self {
            PieceView::Middle => true,
            PieceView::Center(v, _) => is_normal(v),
            PieceView::Edge(v1, v2, _, _) => is_normal(v1) && is_normal(v2) && v1.dot(v2) == 0,
            PieceView::Corner(v1, v2, v3, _, _, _) => {
                &&& is_normal(v1)
                &&& is_normal(v2)
                &&& is_normal(v3)
                &&& v1.dot(v2) == 0
                &&& v1.dot(v3) == 0
                &&& v2.dot(v3) == 0
            },
        }
    }

    /// Every direction can be held in a [`crate::linalg::Vector`].
    pub open spec fn fits(self) -> bool {
        match self {
            PieceView::Middle => true,
            PieceView::Center(v, _) => v.fits(),
            PieceView::Edge(v1, v2, _, _) => v1.fits() && v2.fits(),
            PieceView::Corner(v1, v2, v3, _, _, _) => v1.fits() && v2.fits() && v3.fits(),
        }
    }
}

/// `v` is one of the 27 points of {-1, 0, 1}^3.
pub open spec fn in_lattice(v: Vec3) -> bool {
    -1 <= v.x <= 1 && -1 <= v.y <= 1 && -1 <= v.z <= 1
}

/// The number of the table slot for the lattice point `v`.
pub open spec fn slot_index(v: Vec3) -> int {
    (v.x + 1) * 9 + (v.y + 1) * 3 + (v.z + 1)
}

/// The lattice point of table slot `i`.
pub open spec fn slot_at(i: int) -> Vec3 {
    Vec3 { x: i / 9 - 1, y: (i / 3) % 3 - 1, z: i % 3 - 1 }
}

/// The colour that a sticker facing `v` has on the solved puzzle.
pub open spec fn home_color(v: Vec3) -> Color {
    Face::facing(v).unwrap().solved_color()
}

/// The piece that occupies the lattice point `p` on the solved puzzle. Its
/// directions are the parts of `p` along the axes, in the order x, y, z.
pub open spec fn solved_piece(p: Vec3) -> PieceView {
    if p.support() == 0 {
        PieceView::Middle
    } else if p.support() == 1 {
        PieceView::Center(p, home_color(p))
    } else if p.support() == 2 {
        let v1 = p.along(p.first_axis());
        let v2 = p.along(p.last_axis());
        PieceView::Edge(v1, v2, home_color(v1), home_color(v2))
    } else {
        PieceView::Corner(
            p.along(1),
            p.along(2),
            p.along(3),
            home_color(p.along(1)),
            home_color(p.along(2)),
            home_color(p.along(3)),
        )
    }
}

/// The table of the solved puzzle.
pub open spec fn solved() -> Seq<PieceView> {
    Seq::new(27, |i: int| solved_piece(slot_at(i)))
}

/// The table has 27 slots, every piece is well formed, and every piece sits
/// in the slot of its own coordinate.
pub open spec fn well_formed(t: Seq<PieceView>) -> bool {
    &&& t.len() == 27
    &&& forall|i: int|
        0 <= i < 27 ==> (#[trigger] t[i]).well_formed() && t[i].coordinate() == slot_at(i)
}

/// `p` is one of the eight lattice points around the centre of face `f`:
/// the four corners and four edges of its layer.
pub open spec fn on_ring(f: Face, p: Vec3) -> bool {
    in_lattice(p) && p.dot(f.normal()) == 1 && p != f.normal()
}

/// The table after a quarter turn of face `f` in the sense `d`: every piece
/// on the ring of `f` moves one quarter step round the face and has its
/// directions turned with it; all other pieces stay as they are.
pub open spec fn turned(t: Seq<PieceView>, f: Face, d: Direction) -> Seq<PieceView> {
    Seq::new(
        27,
        |i: int|
            if on_ring(f, slot_at(i)) {
                t[slot_index(f.rotation(d.opposite()).apply(slot_at(i)))].rotated(f.rotation(d))
            } else {
                t[i]
            },
    )
}

/// The lattice point shown in column `col` and row `row` of face `f`, both
/// counted from 0 at the top left of the face as seen from outside.
#[verifier::opaque]
pub open spec fn cell_slot(f: Face, col: int, row: int) -> Vec3 {
    f.normal().plus(f.rightward().scaled(col - 1)).plus(f.upward().scaled(1 - row))
}

/// The colour shown in column `col` and row `row` of face `f`.
pub open spec fn sticker(t: Seq<PieceView>, f: Face, col: int, row: int) -> Color {
    t[slot_index(cell_slot(f, col, row))].color(f.normal()).unwrap()
}

/// The nine colours of face `f`, row by row and each row from left to
/// right.
pub open spec fn face_colors(t: Seq<PieceView>, f: Face) -> Seq<Color> {
    Seq::new(9, |i: int| sticker(t, f, i % 3, i / 3))
}

} // verus!
