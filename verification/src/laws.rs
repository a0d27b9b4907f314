//! What holds of quarter turns on every table of pieces: the laws first,
//! then the steps of their proofs.

use crate::cube::{Cube, Direction, Face};
use crate::geometry::{
    cell_after, cell_col, cell_row, lemma_cell_on_ring, lemma_layer_cells, lemma_quarter,
    lemma_quarter_cancels, lemma_quarter_cell, lemma_rotated_piece, lemma_slots, quarter,
};
use crate::linalg::{lemma_dot_signs, Vec3};
use crate::model::{
    cell_slot, in_lattice, on_ring, slot_at, slot_index, turned, well_formed, PieceView,
};
use crate::moves::{lemma_word_len, move_of, moved, played, word_len};
use vstd::prelude::*;

verus! {

/// A quarter turn of a face, made four times in a row in one sense,
/// restores the table of pieces exactly.
pub proof fn lemma_turn_four_times(t: Seq<PieceView>, f: Face, d: Direction)
    requires
        t.len() == 27,
    ensures
        turned(turned(turned(turned(t, f, d), f, d), f, d), f, d) == t,
{
    let u = turned(turned(turned(turned(t, f, d), f, d), f, d), f, d);
    assert forall|i: int| 0 <= i < 27 implies u[i] == t[i] by {
        lemma_turn_four_times_at(t, f, d, i);
    }
    assert(u =~= t);
}

/// A quarter turn of a face followed by the quarter turn of the same face
/// in the other sense restores the table of pieces exactly. With `d`
/// clockwise this is a clockwise turn undone by a counterclockwise one.
pub proof fn lemma_turn_undone(t: Seq<PieceView>, f: Face, d: Direction)
    requires
        t.len() == 27,
    ensures
        turned(turned(t, f, d), f, d.opposite()) == t,
{
    let u = turned(turned(t, f, d), f, d.opposite());
    assert forall|i: int| 0 <= i < 27 implies u[i] == t[i] by {
        lemma_turn_undone_at(t, f, d, i);
    }
    assert(u =~= t);
}

/// A cube that has been turned four times by a quarter, each time the same
/// face in the same sense, is the cube it was before: it holds the same
/// pieces, with the same directions and colours, in the same slots.
pub proof fn lemma_cube_after_four_turns(before: Cube, after: Cube, f: Face, d: Direction)
    requires
        after@ == turned(turned(turned(turned(before@, f, d), f, d), f, d), f, d),
    ensures
        after == before,
{
    before.lemma_view_len();
    lemma_turn_four_times(before@, f, d);
    Cube::lemma_view_injective(after, before);
}

/// A cube that has been turned by a quarter and then turned back is the
/// cube it was before.
pub proof fn lemma_cube_after_turn_and_return(before: Cube, after: Cube, f: Face, d: Direction)
    requires
        after@ == turned(turned(before@, f, d), f, d.opposite()),
    ensures
        after == before,
{
    before.lemma_view_len();
    lemma_turn_undone(before@, f, d);
    Cube::lemma_view_injective(after, before);
}

/// A quarter turn keeps the table well formed: every piece still sits in
/// the slot of its own coordinate.
pub proof fn lemma_turned_well_formed(t: Seq<PieceView>, f: Face, d: Direction)
    requires
        well_formed(t),
    ensures
        well_formed(turned(t, f, d)),
{
    let u = turned(t, f, d);
    let n = d.opposite();
    assert forall|i: int| 0 <= i < 27 implies (#[trigger] u[i]).well_formed() && u[i].coordinate()
        == slot_at(i) by {
        lemma_slots();
        let p = slot_at(i);
        if on_ring(f, p) {
            lemma_layer_cells(f, p);
            let col = cell_col(f, p);
            let row = cell_row(f, p);
            lemma_quarter_cell(f, n, col, row);
            let from = cell_after(n, col, row);
            lemma_cell_on_ring(f, from.0, from.1);
            let q = f.rotation(n).apply(p);
            assert(on_ring(f, q));
            let k = slot_index(q);
            assert(t[k].well_formed() && t[k].coordinate() == q);
            lemma_rotated_piece(t[k], f, d);
            assert(f.rotation(d).apply(q) == p) by {
                lemma_quarter(f, n, p);
                lemma_quarter(f, d, q);
                lemma_quarter_cancels(f, n, p);
            }
        }
    }
}

/// No quarter turn touches the piece in the middle of the puzzle.
pub proof fn lemma_turn_keeps_middle(t: Seq<PieceView>, f: Face, d: Direction)
    requires
        t.len() == 27,
    ensures
        turned(t, f, d)[slot_index(Vec3::zero())] == t[slot_index(Vec3::zero())],
{
    broadcast use lemma_dot_signs;
    assert(slot_at(13) == Vec3::zero());
    assert(Vec3::zero().is_signs());
    assert(!on_ring(f, Vec3::zero()));
}

/// The table after the quarter turns `turns`, made one after the other.
pub open spec fn turned_by(t: Seq<PieceView>, turns: Seq<(Face, Direction)>) -> Seq<PieceView>
    decreases turns.len(),
{
    if turns.len() == 0 {
        t
    } else {
        turned_by(turned(t, turns[0].0, turns[0].1), turns.drop_first())
    }
}

/// After any sequence of quarter turns every piece still sits in the slot
/// of its own coordinate, and is well formed.
pub proof fn lemma_turns_well_formed(t: Seq<PieceView>, turns: Seq<(Face, Direction)>)
    requires
        well_formed(t),
    ensures
        well_formed(turned_by(t, turns)),
    decreases turns.len(),
{
    if turns.len() > 0 {
        lemma_turned_well_formed(t, turns[0].0, turns[0].1);
        lemma_turns_well_formed(turned(t, turns[0].0, turns[0].1), turns.drop_first());
    }
}

/// No sequence of quarter turns changes the piece in the middle of the
/// puzzle.
pub proof fn lemma_turns_keep_middle(t: Seq<PieceView>, turns: Seq<(Face, Direction)>)
    requires
        t.len() == 27,
    ensures
        turned_by(t, turns).len() == 27,
        turned_by(t, turns)[slot_index(Vec3::zero())] == t[slot_index(Vec3::zero())],
    decreases turns.len(),
{
    if turns.len() > 0 {
        lemma_turn_keeps_middle(t, turns[0].0, turns[0].1);
        lemma_turns_keep_middle(turned(t, turns[0].0, turns[0].1), turns.drop_first());
    }
}

/// Playing a text of moves keeps the table well formed and leaves the piece
/// in the middle of the puzzle as it is, whether or not the text is played
/// to its end.
pub proof fn lemma_played_well_formed(t: Seq<PieceView>, s: Seq<char>)
    requires
        well_formed(t),
    ensures
        well_formed(played(t, s).0),
        played(t, s).0[slot_index(Vec3::zero())] == t[slot_index(Vec3::zero())],
    decreases s.len(),
{
    if s.len() == 0 {
    } else if s[0] == ' ' {
        lemma_played_well_formed(t, s.drop_first());
    } else {
        let n = word_len(s);
        lemma_word_len(s);
        match move_of(s.take(n)) {
            None => {},
            Some(m) => {
                let u = turned(t, m.face, m.dir);
                lemma_turned_well_formed(t, m.face, m.dir);
                lemma_turn_keeps_middle(t, m.face, m.dir);
                lemma_turned_well_formed(u, m.face, m.dir);
                lemma_turn_keeps_middle(u, m.face, m.dir);
                lemma_played_well_formed(moved(t, m), s.skip(n));
            },
        }
    }
}

/// Playing the empty text changes nothing and succeeds.
pub proof fn lemma_played_nothing(t: Seq<PieceView>)
    ensures
        played(t, Seq::<char>::empty()) == (t, true),
{
}

/// On a well-formed table the 27 pieces occupy the 27 lattice points, one
/// each: pieces in different slots have different coordinates, and every
/// lattice point is the coordinate of the piece in its slot.
pub proof fn lemma_occupancy(t: Seq<PieceView>)
    requires
        well_formed(t),
    ensures
        forall|i: int, j: int|
            0 <= i < 27 && 0 <= j < 27 && i != j ==> (#[trigger] t[i]).coordinate() != (
            #[trigger] t[j]).coordinate(),
        forall|p: Vec3| in_lattice(p) ==> (#[trigger] t[slot_index(p)]).coordinate() == p,
{
    lemma_slots();
}

/// The faces and the six unit vectors along the axes correspond one to one:
/// every face is found again from its normal, and a vector that leads to a
/// face is the normal of that face.
pub proof fn lemma_faces_and_normals(f: Face, v: Vec3)
    ensures
        Face::facing(f.normal()) == Some(f),
        Face::facing(v) == Some(f) ==> v == f.normal(),
{
}

/// The matrices of the two senses of a face undo each other.
pub proof fn lemma_quarter_back(f: Face, d: Direction, v: Vec3)
    ensures
        f.rotation(d.opposite()).apply(f.rotation(d).apply(v)) == v,
{
    lemma_quarter(f, d, v);
    lemma_quarter(f, d.opposite(), quarter(f, d, v));
    lemma_quarter_cancels(f, d, v);
}

/// The fourth power of the matrix of a face is the identity.
pub proof fn lemma_quarter_four_times(f: Face, d: Direction, v: Vec3)
    ensures
        f.rotation(d).apply(f.rotation(d).apply(f.rotation(d).apply(f.rotation(d).apply(v)))) == v,
{
    let v1 = quarter(f, d, v);
    let v2 = quarter(f, d, v1);
    let v3 = quarter(f, d, v2);
    lemma_quarter(f, d, v);
    lemma_quarter(f, d, v1);
    lemma_quarter(f, d, v2);
    lemma_quarter(f, d, v3);
    lemma_quarter_cancels(f, d, v);
}

/// Turning a piece by a quarter in one sense and then in the other leaves
/// it as it was.
pub proof fn lemma_rotated_back(p: PieceView, f: Face, d: Direction)
    ensures
        p.rotated(f.rotation(d)).rotated(f.rotation(d.opposite())) == p,
{
    match p {
        PieceView::Middle => {},
        PieceView::Center(v, _) => {
            lemma_quarter_back(f, d, v);
        },
        PieceView::Edge(v1, v2, _, _) => {
            lemma_quarter_back(f, d, v1);
            lemma_quarter_back(f, d, v2);
        },
        PieceView::Corner(v1, v2, v3, _, _, _) => {
            lemma_quarter_back(f, d, v1);
            lemma_quarter_back(f, d, v2);
            lemma_quarter_back(f, d, v3);
        },
    }
}

/// Turning a piece by a quarter four times in one sense leaves it as it
/// was.
pub proof fn lemma_rotated_four_times(p: PieceView, f: Face, d: Direction)
    ensures
        p.rotated(f.rotation(d)).rotated(f.rotation(d)).rotated(f.rotation(d)).rotated(f.rotation(d))
            == p,
{
    match p {
        PieceView::Middle => {},
        PieceView::Center(v, _) => {
            lemma_quarter_four_times(f, d, v);
        },
        PieceView::Edge(v1, v2, _, _) => {
            lemma_quarter_four_times(f, d, v1);
            lemma_quarter_four_times(f, d, v2);
        },
        PieceView::Corner(v1, v2, v3, _, _, _) => {
            lemma_quarter_four_times(f, d, v1);
            lemma_quarter_four_times(f, d, v2);
            lemma_quarter_four_times(f, d, v3);
        },
    }
}

/// What a quarter turn puts into the slot of a cell of the ring: the turned
/// piece of the cell that the opposite turn leads to.
pub proof fn lemma_turned_at_cell(t: Seq<PieceView>, f: Face, d: Direction, col: int, row: int)
    requires
        t.len() == 27,
        0 <= col < 3,
        0 <= row < 3,
        col != 1 || row != 1,
    ensures
        ({
            let from = cell_after(d.opposite(), col, row);
            turned(t, f, d)[slot_index(cell_slot(f, col, row))] == t[slot_index(
                cell_slot(f, from.0, from.1),
            )].rotated(f.rotation(d))
        }),
{
    lemma_slots();
    lemma_cell_on_ring(f, col, row);
    lemma_quarter_cell(f, d.opposite(), col, row);
}

/// Slot `i` of the statement of [`lemma_turn_four_times`].
proof fn lemma_turn_four_times_at(t: Seq<PieceView>, f: Face, d: Direction, i: int)
    requires
        t.len() == 27,
        0 <= i < 27,
    ensures
        turned(turned(turned(turned(t, f, d), f, d), f, d), f, d)[i] == t[i],
{
    let p = slot_at(i);
    let u1 = turned(t, f, d);
    let u2 = turned(u1, f, d);
    let u3 = turned(u2, f, d);
    lemma_slots();
    if on_ring(f, p) {
        lemma_layer_cells(f, p);
        let n = d.opposite();
        let c0 = (cell_col(f, p), cell_row(f, p));
        let c1 = cell_after(n, c0.0, c0.1);
        let c2 = cell_after(n, c1.0, c1.1);
        let c3 = cell_after(n, c2.0, c2.1);
        assert(cell_after(n, c3.0, c3.1) == c0);
        lemma_turned_at_cell(u3, f, d, c0.0, c0.1);
        lemma_turned_at_cell(u2, f, d, c1.0, c1.1);
        lemma_turned_at_cell(u1, f, d, c2.0, c2.1);
        lemma_turned_at_cell(t, f, d, c3.0, c3.1);
        lemma_rotated_four_times(t[i], f, d);
    }
}

/// Slot `i` of the statement of [`lemma_turn_undone`].
proof fn lemma_turn_undone_at(t: Seq<PieceView>, f: Face, d: Direction, i: int)
    requires
        t.len() == 27,
        0 <= i < 27,
    ensures
        turned(turned(t, f, d), f, d.opposite())[i] == t[i],
{
    let p = slot_at(i);
    let u1 = turned(t, f, d);
    lemma_slots();
    if on_ring(f, p) {
        lemma_layer_cells(f, p);
        let c0 = (cell_col(f, p), cell_row(f, p));
        let c1 = cell_after(d, c0.0, c0.1);
        assert(cell_after(d.opposite(), c1.0, c1.1) == c0);
        assert(d.opposite().opposite() == d);
        lemma_turned_at_cell(u1, f, d.opposite(), c0.0, c0.1);
        lemma_turned_at_cell(t, f, d, c1.0, c1.1);
        lemma_rotated_back(t[i], f, d);
    }
}

} // verus!
