//! The geometry of a face: what a quarter turn does to lattice vectors and
//! to pieces, and how the nine cells of a face lie in the lattice.

use crate::cube::{Direction, Face};
use crate::linalg::{
    lemma_apply_signs, lemma_dot_signs, lemma_dot_signs_right, lemma_scaled_signs, Vec3,
};
use crate::model::{cell_slot, in_lattice, is_normal, on_ring, slot_at, slot_index, well_formed, PieceView};
use vstd::prelude::*;

verus! {

/// Slot numbers and lattice points correspond one to one.
pub proof fn lemma_slots()
    ensures
        forall|i: int| 0 <= i < 27 ==> in_lattice(#[trigger] slot_at(i)) && slot_index(slot_at(i)) == i,
        forall|p: Vec3|
            in_lattice(p) ==> 0 <= #[trigger] slot_index(p) < 27 && slot_at(slot_index(p)) == p,
{
}

/// The image of `v` under the quarter turn of face `f` in the sense `d`,
/// written out by components.
#[verifier::opaque]
pub open spec fn quarter(f: Face, d: Direction, v: Vec3) -> Vec3 {
    let cw = d == Direction::CW;
    match f {
        Face::Front => if cw {
            Vec3 { x: v.z, y: v.y, z: -v.x }
        } else {
            Vec3 { x: -v.z, y: v.y, z: v.x }
        },
        Face::Back => if cw {
            Vec3 { x: -v.z, y: v.y, z: v.x }
        } else {
            Vec3 { x: v.z, y: v.y, z: -v.x }
        },
        Face::Left => if cw {
            Vec3 { x: v.x, y: -v.z, z: v.y }
        } else {
            Vec3 { x: v.x, y: v.z, z: -v.y }
        },
        Face::Right => if cw {
            Vec3 { x: v.x, y: v.z, z: -v.y }
        } else {
            Vec3 { x: v.x, y: -v.z, z: v.y }
        },
        Face::Down => if cw {
            Vec3 { x: -v.y, y: v.x, z: v.z }
        } else {
            Vec3 { x: v.y, y: -v.x, z: v.z }
        },
        Face::Up => if cw {
            Vec3 { x: v.y, y: -v.x, z: v.z }
        } else {
            Vec3 { x: -v.y, y: v.x, z: v.z }
        },
    }
}

/// The rotation matrix of a face acts as [`quarter`] says.
pub broadcast proof fn lemma_quarter(f: Face, d: Direction, v: Vec3)
    ensures
        #[trigger] f.rotation(d).apply(v) == quarter(f, d, v),
{
    reveal(quarter);
    reveal(Face::rotation);
    lemma_apply_signs(f.rotation(d), v);
}

/// Negating both factors leaves a product as it is.
proof fn lemma_product_of_negations(a: int, b: int)
    by (nonlinear_arith)
    ensures
        (-a) * (-b) == a * b,
{
}

/// A quarter turn keeps dot products.
pub proof fn lemma_quarter_dot(f: Face, d: Direction, v: Vec3, w: Vec3)
    ensures
        quarter(f, d, v).dot(quarter(f, d, w)) == v.dot(w),
{
    reveal(quarter);
    lemma_product_of_negations(v.x, w.x);
    lemma_product_of_negations(v.y, w.y);
    lemma_product_of_negations(v.z, w.z);
}

/// A quarter turn maps sums to sums.
pub proof fn lemma_quarter_plus(f: Face, d: Direction, v: Vec3, w: Vec3)
    ensures
        quarter(f, d, v.plus(w)) == quarter(f, d, v).plus(quarter(f, d, w)),
{
    reveal(quarter);
}

/// A quarter turn maps face normals to face normals.
pub proof fn lemma_quarter_normal(f: Face, d: Direction, v: Vec3)
    requires
        is_normal(v),
    ensures
        is_normal(quarter(f, d, v)),
        quarter(f, d, v).fits(),
{
    reveal(quarter);
}

/// A quarter turn in one sense undoes a quarter turn in the other, and four
/// quarter turns in one sense undo each other.
pub proof fn lemma_quarter_cancels(f: Face, d: Direction, v: Vec3)
    ensures
        quarter(f, d.opposite(), quarter(f, d, v)) == v,
        quarter(f, d, quarter(f, d, quarter(f, d, quarter(f, d, v)))) == v,
{
    reveal(quarter);
}

/// A turned piece is well formed if the piece was, and sits where the turn
/// takes the place of the piece.
pub proof fn lemma_rotated_piece(p: PieceView, f: Face, d: Direction)
    requires
        p.well_formed(),
    ensures
        p.rotated(f.rotation(d)).well_formed(),
        p.rotated(f.rotation(d)).fits(),
        p.rotated(f.rotation(d)).coordinate() == f.rotation(d).apply(p.coordinate()),
{
    let m = f.rotation(d);
    match p {
        PieceView::Middle => {
            lemma_quarter(f, d, Vec3::zero());
            assert(quarter(f, d, Vec3::zero()) == Vec3::zero()) by {
                reveal(quarter);
            }
        },
        PieceView::Center(v, c) => {
            lemma_quarter(f, d, v);
            lemma_quarter_normal(f, d, v);
            assert(p.rotated(m) == PieceView::Center(quarter(f, d, v), c));
        },
        PieceView::Edge(v1, v2, c1, c2) => {
            lemma_quarter(f, d, v1);
            lemma_quarter(f, d, v2);
            lemma_quarter(f, d, v1.plus(v2));
            lemma_quarter_normal(f, d, v1);
            lemma_quarter_normal(f, d, v2);
            lemma_quarter_dot(f, d, v1, v2);
            lemma_quarter_plus(f, d, v1, v2);
            assert(p.rotated(m) == PieceView::Edge(quarter(f, d, v1), quarter(f, d, v2), c1, c2));
        },
        PieceView::Corner(v1, v2, v3, c1, c2, c3) => {
            lemma_quarter(f, d, v1);
            lemma_quarter(f, d, v2);
            lemma_quarter(f, d, v3);
            lemma_quarter(f, d, v1.plus(v2).plus(v3));
            lemma_quarter_normal(f, d, v1);
            lemma_quarter_normal(f, d, v2);
            lemma_quarter_normal(f, d, v3);
            lemma_quarter_dot(f, d, v1, v2);
            lemma_quarter_dot(f, d, v1, v3);
            lemma_quarter_dot(f, d, v2, v3);
            lemma_quarter_plus(f, d, v1, v2);
            lemma_quarter_plus(f, d, v1.plus(v2), v3);
            assert(p.rotated(m) == PieceView::Corner(
                quarter(f, d, v1),
                quarter(f, d, v2),
                quarter(f, d, v3),
                c1,
                c2,
                c3,
            ));
        },
    }
}

/// The lattice point of a cell of face `f`, written out by components.
pub open spec fn cell_point(f: Face, col: int, row: int) -> Vec3 {
    match f {
        Face::Front => Vec3 { x: col - 1, y: -1, z: 1 - row },
        Face::Back => Vec3 { x: 1 - col, y: 1, z: 1 - row },
        Face::Left => Vec3 { x: -1, y: 1 - col, z: 1 - row },
        Face::Right => Vec3 { x: 1, y: col - 1, z: 1 - row },
        Face::Up => Vec3 { x: col - 1, y: 1 - row, z: 1 },
        Face::Down => Vec3 { x: col - 1, y: row - 1, z: -1 },
    }
}

/// [`cell_slot`] by components.
pub broadcast proof fn lemma_cell_slot(f: Face, col: int, row: int)
    ensures
        #[trigger] cell_slot(f, col, row) == cell_point(f, col, row),
{
    reveal(cell_slot);
    broadcast use lemma_scaled_signs;
    assert(f.rightward().is_signs());
    assert(f.upward().is_signs());
}

/// Different cells of a face show different lattice points.
pub proof fn lemma_cell_slot_injective(f: Face, col: int, row: int, col2: int, row2: int)
    ensures
        cell_slot(f, col, row) == cell_slot(f, col2, row2) <==> col == col2 && row == row2,
{
    broadcast use lemma_cell_slot;
}

/// The cell to which a quarter turn in the sense `d` carries the cell in
/// column `col` and row `row`.
pub open spec fn cell_after(d: Direction, col: int, row: int) -> (int, int) {
    match d {
        Direction::CW => (2 - row, col),
        Direction::CCW => (row, 2 - col),
    }
}

/// A quarter turn of a face moves the lattice points of its layer as it
/// moves the cells of the face.
pub proof fn lemma_quarter_cell(f: Face, d: Direction, col: int, row: int)
    ensures
        f.rotation(d).apply(cell_slot(f, col, row)) == cell_slot(
            f,
            cell_after(d, col, row).0,
            cell_after(d, col, row).1,
        ),
{
    reveal(quarter);
    broadcast use lemma_quarter, lemma_cell_slot;
}

/// The column of the cell of face `f` that shows the lattice point `p` of
/// its layer.
pub open spec fn cell_col(f: Face, p: Vec3) -> int {
    match f {
        Face::Front | Face::Up | Face::Down => p.x + 1,
        Face::Back => 1 - p.x,
        Face::Left => 1 - p.y,
        Face::Right => p.y + 1,
    }
}

/// The row of the cell of face `f` that shows the lattice point `p` of its
/// layer.
pub open spec fn cell_row(f: Face, p: Vec3) -> int {
    match f {
        Face::Front | Face::Back | Face::Left | Face::Right => 1 - p.z,
        Face::Up => 1 - p.y,
        Face::Down => p.y + 1,
    }
}

/// The layer of a face is the set of the lattice points of its nine cells.
pub proof fn lemma_layer_cells(f: Face, p: Vec3)
    requires
        in_lattice(p),
        p.dot(f.normal()) == 1,
    ensures
        0 <= cell_col(f, p) < 3,
        0 <= cell_row(f, p) < 3,
        p == cell_slot(f, cell_col(f, p), cell_row(f, p)),
        p == f.normal() <==> cell_col(f, p) == 1 && cell_row(f, p) == 1,
{
    broadcast use lemma_cell_slot;
    broadcast use lemma_dot_signs;
    assert(p.is_signs());
}

/// Every cell of a face but the middle one lies on the ring of the face.
pub proof fn lemma_cell_on_ring(f: Face, col: int, row: int)
    requires
        0 <= col < 3,
        0 <= row < 3,
        col != 1 || row != 1,
    ensures
        on_ring(f, cell_slot(f, col, row)),
{
    broadcast use lemma_cell_slot;
    broadcast use lemma_dot_signs;
    assert(cell_slot(f, col, row).is_signs());
}

/// The dot product of a face normal with the normal of face `f` is 1 only
/// for the normal of `f` itself, and never above 1.
proof fn lemma_normal_dot(f: Face, v: Vec3)
    requires
        is_normal(v),
    ensures
        v.dot(f.normal()) <= 1,
        v.dot(f.normal()) == 1 <==> v == f.normal(),
{
    lemma_dot_signs_right(v, f.normal());
}

/// On a well-formed table every piece in the layer of a face has a sticker
/// on that face.
pub proof fn lemma_layer_shows(t: Seq<PieceView>, f: Face, p: Vec3)
    requires
        well_formed(t),
        in_lattice(p),
        p.dot(f.normal()) == 1,
    ensures
        t[slot_index(p)].color(f.normal()) is Some,
{
    lemma_slots();
    let n = f.normal();
    let piece = t[slot_index(p)];
    assert(piece.well_formed() && piece.coordinate() == p);
    assert(n.is_signs());
    match piece {
        PieceView::Middle => {
            lemma_dot_signs_right(p, n);
        },
        PieceView::Center(v, _) => {
            lemma_normal_dot(f, v);
        },
        PieceView::Edge(v1, v2, _, _) => {
            lemma_normal_dot(f, v1);
            lemma_normal_dot(f, v2);
            lemma_dot_signs_right(v1, n);
            lemma_dot_signs_right(v2, n);
            lemma_dot_signs_right(v1.plus(v2), n);
        },
        PieceView::Corner(v1, v2, v3, _, _, _) => {
            lemma_normal_dot(f, v1);
            lemma_normal_dot(f, v2);
            lemma_normal_dot(f, v3);
            lemma_dot_signs_right(v1, n);
            lemma_dot_signs_right(v2, n);
            lemma_dot_signs_right(v3, n);
            lemma_dot_signs_right(v1.plus(v2).plus(v3), n);
        },
    }
}

} // verus!
