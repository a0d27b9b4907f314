//! A quarter turn in progress: the two cycles of four lattice points along
//! which the turn exchanges pieces, and the table after each exchange.

use crate::cube::{Direction, Face};
use crate::linalg::{lemma_dot_signs_right, Vec3};
use crate::model::{cell_slot, in_lattice, on_ring, slot_at, slot_index, turned, well_formed, PieceView};
use crate::geometry::{
    cell_after, cell_col, cell_row, lemma_cell_on_ring, lemma_cell_slot, lemma_cell_slot_injective,
    lemma_layer_cells, lemma_layer_shows, lemma_quarter, lemma_quarter_cell, lemma_rotated_piece,
    lemma_slots, quarter,
};
use vstd::prelude::*;

verus! {

/// The cell reached from the cell in column `col` and row `row` by `k`
/// quarter turns in the sense `d`, for `k` from 0 to 4.
pub open spec fn cell_orbit(d: Direction, col: int, row: int, k: int) -> (int, int) {
    if k == 1 {
        cell_after(d, col, row)
    } else if k == 2 {
        (2 - col, 2 - row)
    } else if k == 3 {
        cell_after(d.opposite(), col, row)
    } else {
        (col, row)
    }
}

/// The lattice point reached from the cell in column `col` and row `row` of
/// face `f` by `k` quarter turns against the sense `d`. A turn of `f` in the
/// sense `d` moves the piece at point `k + 1` of this cycle to point `k`.
#[verifier::opaque]
pub open spec fn cycle_point(f: Face, d: Direction, col: int, row: int, k: int) -> Vec3 {
    let c = cell_orbit(d.opposite(), col, row, k);
    cell_slot(f, c.0, c.1)
}

/// The place of the lattice point `p` on the cycle of [`cycle_point`], from
/// 0 to 3; -1 if the cycle does not pass through `p`.
#[verifier::opaque]
pub open spec fn cycle_place(f: Face, d: Direction, col: int, row: int, p: Vec3) -> int {
    if p == cycle_point(f, d, col, row, 0) {
        0
    } else if p == cycle_point(f, d, col, row, 1) {
        1
    } else if p == cycle_point(f, d, col, row, 2) {
        2
    } else if p == cycle_point(f, d, col, row, 3) {
        3
    } else {
        -1
    }
}

/// Four steps along a cycle lead back to its head.
pub proof fn lemma_cycle_closes(f: Face, d: Direction)
    ensures
        cycle_point(f, d, 0, 0, 4) == cycle_point(f, d, 0, 0, 0),
        cycle_point(f, d, 1, 0, 4) == cycle_point(f, d, 1, 0, 0),
{
    reveal(cycle_point);
}

/// The eight points of the two cycles lie on the ring of the face.
pub proof fn lemma_cycles_on_ring(f: Face, d: Direction)
    ensures
        forall|k: int| 0 <= k <= 4 ==> on_ring(f, #[trigger] cycle_point(f, d, 0, 0, k)),
        forall|k: int| 0 <= k <= 4 ==> on_ring(f, #[trigger] cycle_point(f, d, 1, 0, k)),
{
    reveal(cycle_point);
    assert forall|k: int| 0 <= k <= 4 implies on_ring(f, #[trigger] cycle_point(f, d, 0, 0, k)) by {
        let c = cell_orbit(d.opposite(), 0, 0, k);
        lemma_cell_on_ring(f, c.0, c.1);
    }
    assert forall|k: int| 0 <= k <= 4 implies on_ring(f, #[trigger] cycle_point(f, d, 1, 0, k)) by {
        let c = cell_orbit(d.opposite(), 1, 0, k);
        lemma_cell_on_ring(f, c.0, c.1);
    }
}

/// The first two points of each cycle, as sums of the normal of the face
/// and an offset from its centre.
pub proof fn lemma_cycle_heads(f: Face, d: Direction)
    ensures
        cycle_point(f, d, 0, 0, 0) == f.corner_offset().plus(f.normal()),
        cycle_point(f, d, 1, 0, 0) == f.edge_offset().plus(f.normal()),
        cycle_point(f, d, 0, 0, 1) == f.rotation(d.opposite()).apply(f.corner_offset()).plus(
            f.normal(),
        ),
        cycle_point(f, d, 1, 0, 1) == f.rotation(d.opposite()).apply(f.edge_offset()).plus(f.normal()),
        in_lattice(f.rotation(d.opposite()).apply(f.corner_offset())),
        in_lattice(f.rotation(d.opposite()).apply(f.edge_offset())),
{
    reveal(cycle_point);
    reveal(quarter);
    broadcast use lemma_cell_slot;
    lemma_quarter(f, d.opposite(), f.corner_offset());
    lemma_quarter(f, d.opposite(), f.edge_offset());
}

/// The matrix of the opposite sense leads from each point of a cycle to the
/// next.
pub proof fn lemma_cycle_next(f: Face, d: Direction, c: int, k: int)
    requires
        0 <= c <= 1,
        0 <= k < 4,
    ensures
        f.rotation(d.opposite()).apply(cycle_point(f, d, c, 0, k)) == cycle_point(f, d, c, 0, k + 1),
{
    reveal(cycle_point);
    let n = d.opposite();
    let cell = cell_orbit(n, c, 0, k);
    lemma_quarter_cell(f, n, cell.0, cell.1);
}

/// The four points of a cycle are distinct, and the two cycles are
/// disjoint.
pub proof fn lemma_cycle_places(f: Face, d: Direction)
    ensures
        forall|k: int|
            0 <= k < 4 ==> cycle_place(f, d, 0, 0, #[trigger] cycle_point(f, d, 0, 0, k)) == k
                && cycle_place(f, d, 1, 0, cycle_point(f, d, 0, 0, k)) == -1,
        forall|k: int|
            0 <= k < 4 ==> cycle_place(f, d, 1, 0, #[trigger] cycle_point(f, d, 1, 0, k)) == k
                && cycle_place(f, d, 0, 0, cycle_point(f, d, 1, 0, k)) == -1,
        cycle_point(f, d, 0, 0, 4) == cycle_point(f, d, 0, 0, 0),
        cycle_point(f, d, 1, 0, 4) == cycle_point(f, d, 1, 0, 0),
{
    reveal(cycle_point);
    reveal(cycle_place);
    let n = d.opposite();
    assert forall|a: int, b: int, k: int, l: int|
        0 <= a <= 1 && 0 <= b <= 1 && 0 <= k < 4 && 0 <= l < 4 implies (#[trigger] cycle_point(
        f,
        d,
        a,
        0,
        k,
    ) == #[trigger] cycle_point(f, d, b, 0, l) <==> a == b && k == l) by {
        let c = cell_orbit(n, a, 0, k);
        let e = cell_orbit(n, b, 0, l);
        lemma_cell_slot_injective(f, c.0, c.1, e.0, e.1);
    }
}

/// The slots of the two cycles, as far as the exchanges of a turn need them.
pub proof fn lemma_cycle_slots(f: Face, d: Direction)
    ensures
        forall|c: int, k: int|
            0 <= c <= 1 && 0 <= k <= 4 ==> 0 <= slot_index(#[trigger] cycle_point(f, d, c, 0, k)) < 27,
        forall|c: int, k: int|
            0 <= c <= 1 && 0 <= k <= 4 ==> in_lattice(#[trigger] cycle_point(f, d, c, 0, k)),
        forall|c: int, e: int, k: int|
            0 <= c <= 1 && 0 <= e <= 1 && 0 <= k < 4 ==> #[trigger] cycle_place(
                f,
                d,
                e,
                0,
                slot_at(slot_index(cycle_point(f, d, c, 0, k))),
            ) == if c == e {
                k
            } else {
                -1
            },
        forall|c: int, i: int|
            0 <= c <= 1 && 0 <= i < 27 ==> {
                let k = #[trigger] cycle_place(f, d, c, 0, slot_at(i));
                -1 <= k <= 3 && (k >= 0 ==> i == slot_index(cycle_point(f, d, c, 0, k)))
            },
        forall|c: int| 0 <= c <= 1 ==> #[trigger] cycle_point(f, d, c, 0, 4) == cycle_point(f, d, c, 0, 0),
{
    lemma_slots();
    lemma_cycles_on_ring(f, d);
    lemma_cycle_places(f, d);
    assert forall|c: int, i: int| 0 <= c <= 1 && 0 <= i < 27 implies {
        let k = #[trigger] cycle_place(f, d, c, 0, slot_at(i));
        -1 <= k <= 3 && (k >= 0 ==> i == slot_index(cycle_point(f, d, c, 0, k)))
    } by {
        reveal(cycle_place);
    }
}

/// What the slot at place `k` of a cycle holds once the turn has made `j` of
/// its three exchanges along that cycle: the places below `j` hold their
/// final piece, and place `j` holds the turned piece of place 0, which the
/// exchanges carry along.
pub open spec fn cycle_entry(
    t: Seq<PieceView>,
    f: Face,
    d: Direction,
    col: int,
    row: int,
    k: int,
    j: int,
) -> PieceView {
    if k < j {
        t[slot_index(cycle_point(f, d, col, row, k + 1))].rotated(f.rotation(d))
    } else if k == j {
        t[slot_index(cycle_point(f, d, col, row, 0))].rotated(f.rotation(d))
    } else {
        t[slot_index(cycle_point(f, d, col, row, k))]
    }
}

/// The table in the course of a quarter turn of `f` in the sense `d`, after
/// `jc` exchanges along the cycle of corners and `je` along that of edges.
#[verifier::opaque]
pub open spec fn partly_turned(t: Seq<PieceView>, f: Face, d: Direction, jc: int, je: int) -> Seq<
    PieceView,
> {
    Seq::new(
        27,
        |i: int|
            {
                let kc = cycle_place(f, d, 0, 0, slot_at(i));
                let ke = cycle_place(f, d, 1, 0, slot_at(i));
                if kc >= 0 {
                    cycle_entry(t, f, d, 0, 0, kc, jc)
                } else if ke >= 0 {
                    cycle_entry(t, f, d, 1, 0, ke, je)
                } else {
                    t[i]
                }
            },
    )
}

/// The table before the first exchange: the pieces at the heads of the two
/// cycles have been turned in place.
pub proof fn lemma_partly_turned_start(t: Seq<PieceView>, f: Face, d: Direction)
    requires
        t.len() == 27,
    ensures
        ({
            let a = slot_index(cycle_point(f, d, 0, 0, 0));
            let b = slot_index(cycle_point(f, d, 1, 0, 0));
            let r = f.rotation(d);
            partly_turned(t, f, d, 0, 0) == t.update(a, t[a].rotated(r)).update(b, t[b].rotated(r))
        }),
{
    reveal(partly_turned);
    let a = slot_index(cycle_point(f, d, 0, 0, 0));
    let b = slot_index(cycle_point(f, d, 1, 0, 0));
    let r = f.rotation(d);
    let u = t.update(a, t[a].rotated(r)).update(b, t[b].rotated(r));
    lemma_cycle_slots(f, d);
    assert(partly_turned(t, f, d, 0, 0) =~= u);
}

/// One exchange along the cycle of corners (`c` is 0) or of edges (`c` is
/// 1): the piece at the next point is turned, then changes places with the
/// piece that is being carried along.
pub proof fn lemma_partly_turned_step(t: Seq<PieceView>, f: Face, d: Direction, c: int, jc: int, je: int)
    requires
        t.len() == 27,
        0 <= c <= 1,
        0 <= (if c == 0 { jc } else { je }) < 3,
    ensures
        ({
            let j = if c == 0 { jc } else { je };
            let a = slot_index(cycle_point(f, d, c, 0, j));
            let b = slot_index(cycle_point(f, d, c, 0, j + 1));
            let r = f.rotation(d);
            let u = partly_turned(t, f, d, jc, je);
            partly_turned(t, f, d, if c == 0 { jc + 1 } else { jc }, if c == 0 { je } else { je + 1 })
                == u.update(a, u[b].rotated(r)).update(b, u[a])
        }),
{
    reveal(partly_turned);
    let j = if c == 0 { jc } else { je };
    let a = slot_index(cycle_point(f, d, c, 0, j));
    let b = slot_index(cycle_point(f, d, c, 0, j + 1));
    let r = f.rotation(d);
    let u = partly_turned(t, f, d, jc, je);
    let w = u.update(a, u[b].rotated(r)).update(b, u[a]);
    let v = partly_turned(t, f, d, if c == 0 { jc + 1 } else { jc }, if c == 0 { je } else { je + 1 });
    lemma_cycle_slots(f, d);
    assert(v =~= w);
}

/// What an exchange of a turn relies on: the two points it works on are
/// lattice points, the matrix of the opposite sense leads each to the next
/// point of its cycle, and the piece that it turns has not been turned yet.
pub proof fn lemma_exchange_ready(t: Seq<PieceView>, f: Face, d: Direction, c: int, jc: int, je: int)
    requires
        well_formed(t),
        0 <= c <= 1,
        0 <= (if c == 0 { jc } else { je }) < 3,
    ensures
        ({
            let j = if c == 0 { jc } else { je };
            let here = cycle_point(f, d, c, 0, j);
            let next = cycle_point(f, d, c, 0, j + 1);
            let n = f.rotation(d.opposite());
            &&& in_lattice(here)
            &&& in_lattice(next)
            &&& slot_index(here) != slot_index(next)
            &&& n.apply(here) == next
            &&& n.apply(next) == cycle_point(f, d, c, 0, j + 2)
            &&& n.apply(next).fits()
            &&& partly_turned(t, f, d, jc, je)[slot_index(next)].rotated(f.rotation(d)).fits()
        }),
{
    reveal(partly_turned);
    let j = if c == 0 { jc } else { je };
    let next = cycle_point(f, d, c, 0, j + 1);
    lemma_cycle_slots(f, d);
    lemma_cycle_next(f, d, c, j);
    lemma_cycle_next(f, d, c, j + 1);
    assert(partly_turned(t, f, d, jc, je)[slot_index(next)] == t[slot_index(next)]);
    lemma_rotated_piece(t[slot_index(next)], f, d);
}

/// A slot off the ring of the face is left alone throughout the turn.
proof fn lemma_off_ring_kept(t: Seq<PieceView>, f: Face, d: Direction, jc: int, je: int, i: int)
    requires
        t.len() == 27,
        0 <= i < 27,
        !on_ring(f, slot_at(i)),
    ensures
        partly_turned(t, f, d, jc, je)[i] == t[i],
        turned(t, f, d)[i] == t[i],
{
    reveal(partly_turned);
    reveal(cycle_place);
    lemma_cycles_on_ring(f, d);
}

/// What the finished turn puts into the slot of a cell of the ring.
proof fn lemma_turned_cell(t: Seq<PieceView>, f: Face, d: Direction, i: int, col: int, row: int)
    requires
        t.len() == 27,
        0 <= i < 27,
        on_ring(f, slot_at(i)),
        slot_at(i) == cell_slot(f, col, row),
    ensures
        ({
            let from = cell_after(d.opposite(), col, row);
            turned(t, f, d)[i] == t[slot_index(cell_slot(f, from.0, from.1))].rotated(f.rotation(d))
        }),
{
    lemma_quarter_cell(f, d.opposite(), col, row);
}

/// Every cell of the ring has a place on one of the two cycles, and the
/// next point of that cycle is the cell from which a turn fills it.
proof fn lemma_cell_place(f: Face, d: Direction, col: int, row: int)
    requires
        0 <= col < 3,
        0 <= row < 3,
        col != 1 || row != 1,
    ensures
        ({
            let p = cell_slot(f, col, row);
            let kc = cycle_place(f, d, 0, 0, p);
            let ke = cycle_place(f, d, 1, 0, p);
            let from = cell_after(d.opposite(), col, row);
            &&& kc >= 0 ==> cycle_point(f, d, 0, 0, kc + 1) == cell_slot(f, from.0, from.1)
            &&& kc < 0 ==> ke >= 0 && cycle_point(f, d, 1, 0, ke + 1) == cell_slot(f, from.0, from.1)
            &&& kc <= 3 && ke <= 3
        }),
{
    reveal(cycle_point);
    reveal(cycle_place);
    let n = d.opposite();
    assert forall|k: int| 0 <= k <= 4 implies (cycle_point(f, d, 0, 0, k) == cell_slot(f, col, row)
        <==> #[trigger] cell_orbit(n, 0, 0, k) == (col, row)) by {
        let c = cell_orbit(n, 0, 0, k);
        lemma_cell_slot_injective(f, c.0, c.1, col, row);
    }
    assert forall|k: int| 0 <= k <= 4 implies (cycle_point(f, d, 1, 0, k) == cell_slot(f, col, row)
        <==> #[trigger] cell_orbit(n, 1, 0, k) == (col, row)) by {
        let c = cell_orbit(n, 1, 0, k);
        lemma_cell_slot_injective(f, c.0, c.1, col, row);
    }
    assert(cell_orbit(n, 0, 0, 0) == (0int, 0int));
    assert(cell_orbit(n, 0, 0, 2) == (2int, 2int));
    assert(cell_orbit(n, 1, 0, 0) == (1int, 0int));
    assert(cell_orbit(n, 1, 0, 2) == (1int, 2int));
    assert(cell_orbit(n, 0, 0, 1) == cell_after(n, 0, 0));
    assert(cell_orbit(n, 0, 0, 3) == cell_after(d, 0, 0));
    assert(cell_orbit(n, 1, 0, 1) == cell_after(n, 1, 0));
    assert(cell_orbit(n, 1, 0, 3) == cell_after(d, 1, 0));
}

/// What three exchanges along both cycles have put into a slot that has a
/// place on one of them, where `q` is the point that follows that place.
proof fn lemma_partly_turned_entry(t: Seq<PieceView>, f: Face, d: Direction, i: int, q: Vec3)
    requires
        t.len() == 27,
        0 <= i < 27,
        ({
            let kc = cycle_place(f, d, 0, 0, slot_at(i));
            let ke = cycle_place(f, d, 1, 0, slot_at(i));
            &&& kc >= 0 ==> cycle_point(f, d, 0, 0, kc + 1) == q
            &&& kc < 0 ==> ke >= 0 && cycle_point(f, d, 1, 0, ke + 1) == q
            &&& kc <= 3 && ke <= 3
        }),
        cycle_point(f, d, 0, 0, 4) == cycle_point(f, d, 0, 0, 0),
        cycle_point(f, d, 1, 0, 4) == cycle_point(f, d, 1, 0, 0),
    ensures
        partly_turned(t, f, d, 3, 3)[i] == t[slot_index(q)].rotated(f.rotation(d)),
{
    reveal(partly_turned);
}

/// What three exchanges along both cycles have put into the slot of a cell
/// of the ring.
proof fn lemma_partly_turned_cell(t: Seq<PieceView>, f: Face, d: Direction, i: int, col: int, row: int)
    requires
        t.len() == 27,
        0 <= i < 27,
        0 <= col < 3,
        0 <= row < 3,
        col != 1 || row != 1,
        slot_at(i) == cell_slot(f, col, row),
    ensures
        ({
            let from = cell_after(d.opposite(), col, row);
            partly_turned(t, f, d, 3, 3)[i] == t[slot_index(cell_slot(f, from.0, from.1))].rotated(
                f.rotation(d),
            )
        }),
{
    lemma_cell_place(f, d, col, row);
    lemma_cycle_closes(f, d);
    let from = cell_after(d.opposite(), col, row);
    lemma_partly_turned_entry(t, f, d, i, cell_slot(f, from.0, from.1));
}

/// One slot of [`lemma_partly_turned_done`].
proof fn lemma_partly_turned_done_at(t: Seq<PieceView>, f: Face, d: Direction, i: int)
    requires
        t.len() == 27,
        0 <= i < 27,
    ensures
        partly_turned(t, f, d, 3, 3)[i] == turned(t, f, d)[i],
{
    let p = slot_at(i);
    if on_ring(f, p) {
        lemma_layer_cells(f, p);
        lemma_turned_cell(t, f, d, i, cell_col(f, p), cell_row(f, p));
        lemma_partly_turned_cell(t, f, d, i, cell_col(f, p), cell_row(f, p));
    } else {
        lemma_off_ring_kept(t, f, d, 3, 3, i);
    }
}

/// After three exchanges along both cycles the quarter turn is complete.
pub proof fn lemma_partly_turned_done(t: Seq<PieceView>, f: Face, d: Direction)
    requires
        t.len() == 27,
    ensures
        partly_turned(t, f, d, 3, 3) == turned(t, f, d),
{
    reveal(partly_turned);
    assert forall|i: int| 0 <= i < 27 implies partly_turned(t, f, d, 3, 3)[i] == turned(t, f, d)[i] by {
        lemma_partly_turned_done_at(t, f, d, i);
    }
    assert(partly_turned(t, f, d, 3, 3) =~= turned(t, f, d));
}

/// What reading a face relies on, for the cell that is `k` clockwise
/// quarter steps from the top left corner (`c` is 0) or from the top edge
/// (`c` is 1): the cell shows a lattice point whose piece has a sticker on
/// the face, and the clockwise matrix of the face leads to the next cell.
pub proof fn lemma_face_cell(t: Seq<PieceView>, f: Face, c: int, k: int)
    requires
        well_formed(t),
        0 <= c <= 1,
        0 <= k < 4,
    ensures
        ({
            let p = cycle_point(f, Direction::CCW, c, 0, k);
            let cell = cell_orbit(Direction::CW, c, 0, k);
            &&& in_lattice(p)
            &&& p == cell_slot(f, cell.0, cell.1)
            &&& t[slot_index(p)].color(f.normal()) is Some
            &&& f.rotation(Direction::CW).apply(p) == cycle_point(f, Direction::CCW, c, 0, k + 1)
            &&& f.rotation(Direction::CW).apply(p).fits()
        }),
{
    let d = Direction::CCW;
    let p = cycle_point(f, d, c, 0, k);
    lemma_cycle_slots(f, d);
    lemma_cycles_on_ring(f, d);
    lemma_cycle_next(f, d, c, k);
    assert(on_ring(f, p));
    lemma_layer_shows(t, f, p);
    assert(p == cell_slot(f, cell_orbit(Direction::CW, c, 0, k).0, cell_orbit(Direction::CW, c, 0, k).1))
        by {
        reveal(cycle_point);
    }
}

/// The middle cell of a face shows the lattice point of its normal, whose
/// piece has a sticker on the face.
pub proof fn lemma_face_middle(t: Seq<PieceView>, f: Face)
    requires
        well_formed(t),
    ensures
        in_lattice(f.normal()),
        f.normal() == cell_slot(f, 1, 1),
        t[slot_index(f.normal())].color(f.normal()) is Some,
{
    lemma_cell_slot(f, 1, 1);
    lemma_dot_signs_right(f.normal(), f.normal());
    lemma_layer_shows(t, f, f.normal());
}

} // verus!
