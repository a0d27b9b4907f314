//! The order in which the solved puzzle is put together, and why that fills
//! every slot of the table exactly once.

use crate::cube::Face;
use crate::linalg::{lemma_apply_signs, lemma_dot_signs, Mat3, Vec3};
use crate::model::{in_lattice, slot_at, solved, solved_piece, well_formed};
use vstd::prelude::*;

verus! {

/// The image of `v` under `n` clockwise quarter turns about the x axis, for
/// `n` from 0 to 4.
pub open spec fn x_turns(v: Vec3, n: int) -> Vec3 {
    if n == 1 {
        Vec3 { x: v.x, y: v.z, z: -v.y }
    } else if n == 2 {
        Vec3 { x: v.x, y: -v.y, z: -v.z }
    } else if n == 3 {
        Vec3 { x: v.x, y: -v.z, z: v.y }
    } else {
        v
    }
}

/// The point from which the edges of group `a` are made: the groups 0 and 1
/// are the edges with x = -1 and x = 1, group 2 those with x = 0.
pub open spec fn edge_seed(a: int) -> Vec3 {
    if a == 0 {
        Vec3 { x: -1, y: 0, z: 1 }
    } else if a == 1 {
        Vec3 { x: 1, y: 0, z: 1 }
    } else {
        Vec3 { x: 0, y: 1, z: 1 }
    }
}

/// The point from which the corners of group `a` are made: group 0 has
/// x = -1, group 1 has x = 1.
pub open spec fn corner_seed(a: int) -> Vec3 {
    if a == 0 {
        Vec3 { x: -1, y: 1, z: 1 }
    } else {
        Vec3 { x: 1, y: 1, z: 1 }
    }
}

/// The lattice point of the piece that is made in place `k` of the 27: the
/// middle, the six centres in the order of the faces, then three groups of
/// four edges and two groups of four corners, each group made from its seed
/// by one to four quarter turns about the x axis.
pub open spec fn generated_point(k: int) -> Vec3 {
    if k <= 0 {
        Vec3::zero()
    } else if k <= 6 {
        Face::all()[k - 1].normal()
    } else if k <= 18 {
        x_turns(edge_seed((k - 7) / 4), (k - 7) % 4 + 1)
    } else {
        x_turns(corner_seed((k - 19) / 4), (k - 19) % 4 + 1)
    }
}

/// Which of the four members of its group an edge with x = -1 or x = 1 is,
/// by its other two components.
pub open spec fn upright_place(y: int, z: int) -> int {
    if y == 1 {
        0
    } else if z == -1 {
        1
    } else if y == -1 {
        2
    } else {
        3
    }
}

/// Which of the four members of its group a corner, or an edge with x = 0,
/// is, by its other two components.
pub open spec fn diagonal_place(y: int, z: int) -> int {
    if y == 1 && z == -1 {
        0
    } else if y == -1 && z == -1 {
        1
    } else if y == -1 && z == 1 {
        2
    } else {
        3
    }
}

/// The place in which the piece at the lattice point `p` is made.
pub open spec fn generated_place(p: Vec3) -> int {
    let group: int = if p.x == 1 { 1 } else { 0 };
    if p.support() == 0 {
        0
    } else if p.support() == 1 {
        match Face::facing(p) {
            Some(Face::Front) => 1,
            Some(Face::Back) => 2,
            Some(Face::Left) => 3,
            Some(Face::Right) => 4,
            Some(Face::Up) => 5,
            _ => 6,
        }
    } else if p.support() == 2 {
        if p.x != 0 {
            7 + 4 * group + upright_place(p.y, p.z)
        } else {
            15 + diagonal_place(p.y, p.z)
        }
    } else {
        19 + 4 * group + diagonal_place(p.y, p.z)
    }
}

/// One more quarter turn about the x axis.
pub proof fn lemma_x_turn(v: Vec3, n: int)
    requires
        0 <= n < 4,
    ensures
        Mat3::rotation_x(true).apply(x_turns(v, n)) == x_turns(v, n + 1),
{
    lemma_apply_signs(Mat3::rotation_x(true), x_turns(v, n));
}

/// The 27 places and the 27 lattice points correspond one to one.
pub proof fn lemma_generation_covers()
    ensures
        forall|k: int|
            0 <= k < 27 ==> in_lattice(#[trigger] generated_point(k)) && generated_place(
                generated_point(k),
            ) == k,
        forall|p: Vec3|
            in_lattice(p) ==> 0 <= #[trigger] generated_place(p) < 27 && generated_point(
                generated_place(p),
            ) == p,
{
    assert forall|k: int| 0 <= k < 27 implies in_lattice(#[trigger] generated_point(k))
        && generated_place(generated_point(k)) == k by {
        lemma_generated_point(k);
    }
    assert forall|p: Vec3| in_lattice(p) implies 0 <= #[trigger] generated_place(p) < 27
        && generated_point(generated_place(p)) == p by {
        lemma_generated_place(p);
    }
}

/// The point made in place `k` is a lattice point, and `k` is its place.
proof fn lemma_generated_point(k: int)
    requires
        0 <= k < 27,
    ensures
        in_lattice(generated_point(k)),
        generated_place(generated_point(k)) == k,
{
    if 1 <= k <= 6 {
        assert(Face::all()[0] == Face::Front);
        assert(Face::all()[1] == Face::Back);
        assert(Face::all()[2] == Face::Left);
        assert(Face::all()[3] == Face::Right);
        assert(Face::all()[4] == Face::Up);
        assert(Face::all()[5] == Face::Down);
    }
}

/// The place of a lattice point is one of the 27, and the point is made
/// there.
proof fn lemma_generated_place(p: Vec3)
    requires
        in_lattice(p),
    ensures
        0 <= generated_place(p) < 27,
        generated_point(generated_place(p)) == p,
{
    if p.support() == 1 {
        assert(Face::all()[0] == Face::Front);
        assert(Face::all()[1] == Face::Back);
        assert(Face::all()[2] == Face::Left);
        assert(Face::all()[3] == Face::Right);
        assert(Face::all()[4] == Face::Up);
        assert(Face::all()[5] == Face::Down);
    }
}

/// The piece of the solved puzzle at a lattice point is well formed and
/// sits at that point.
pub proof fn lemma_solved_piece(p: Vec3)
    requires
        in_lattice(p),
    ensures
        solved_piece(p).well_formed(),
        solved_piece(p).coordinate() == p,
        solved_piece(p).fits(),
{
    broadcast use lemma_dot_signs;
    assert(p.along(1).is_signs() && p.along(2).is_signs() && p.along(3).is_signs());
}

/// The table of the solved puzzle is well formed.
pub proof fn lemma_solved_well_formed()
    ensures
        well_formed(solved()),
{
    assert forall|i: int| 0 <= i < 27 implies (#[trigger] solved()[i]).well_formed()
        && solved()[i].coordinate() == slot_at(i) by {
        lemma_solved_piece(slot_at(i));
    }
}

} // verus!
