//! The puzzle itself: colours, faces, pieces, and the cube with its turns.

use crate::assembly::{
    corner_seed, edge_seed, generated_place, generated_point, lemma_generation_covers,
    lemma_solved_piece, lemma_solved_well_formed, lemma_x_turn, x_turns,
};
use crate::cycles::{
    cycle_point, lemma_cycle_heads, lemma_cycle_slots, lemma_exchange_ready, lemma_face_cell,
    lemma_face_middle, lemma_partly_turned_done, lemma_partly_turned_start, lemma_partly_turned_step,
    partly_turned,
};
use crate::geometry::{lemma_rotated_piece, lemma_slots};
use crate::laws::{lemma_turn_keeps_middle, lemma_turned_well_formed};
use crate::linalg::{lemma_vector_view_injective, Mat3, Matrix, Vec3, Vector};
use crate::model::{
    face_colors, in_lattice, slot_at, slot_index, solved, solved_piece, sticker, turned, well_formed,
    PieceView,
};
use crate::moves::{lemma_played_space, lemma_played_word, move_of, played, Move};
use core::ops::Not;
use vstd::pervasive::unreached;
use vstd::prelude::*;
use vstd::std_specs::cmp::PartialEqSpecImpl;
use vstd::std_specs::ops::NotSpecImpl;

verus! {

/// A sticker colour.
#[derive(Clone, Copy, PartialEq, Eq, Debug, Structural)]
pub enum Color {
    Yellow,
    Red,
    Blue,
    White,
    Orange,
    Green,
}

/// The sense of a quarter turn, as seen from outside the turned face.
#[derive(Clone, Copy, PartialEq, Eq, Debug, Structural)]
pub enum Direction {
    CW,
    CCW,
}

/// One of the six faces of the puzzle.
#[derive(Clone, Copy, PartialEq, Eq, Debug, Structural)]
pub enum Face {
    Front,
    Back,
    Left,
    Right,
    Up,
    Down,
}

impl Direction {
    /// The other sense.
    pub open spec fn opposite(self) -> Direction {
        match self {
            Direction::CW => Direction::CCW,
            Direction::CCW => Direction::CW,
        }
    }
}

impl Not for Direction {
    type Output = Self;

    fn not(self) -> (r: Self) {
        match self {
            Self::CW => Self::CCW,
            Self::CCW => Self::CW,
        }
    }
}

impl NotSpecImpl for Direction {
    open spec fn obeys_not_spec() -> bool {
        true
    }

    open spec fn not_req(self) -> bool {
        true
    }

    open spec fn not_spec(self) -> Self {
        self.opposite()
    }
}

impl Color {
    /// The one-letter name of the colour.
    pub open spec fn letter(self) -> &'static str {
        match self {
            Color::Yellow => "y",
            Color::Red => "r",
            Color::Blue => "b",
            Color::Green => "g",
            Color::White => "w",
            Color::Orange => "o",
        }
    }

    /// The one-letter name of the colour.
    pub fn short(&self) -> (s: &'static str)
        ensures
            s == self.letter(),
    {
        match self {
            Self::Yellow => "y",
            Self::Red => "r",
            Self::Blue => "b",
            Self::Green => "g",
            Self::White => "w",
            Self::Orange => "o",
        }
    }
}

impl Face {
    /// The outward unit normal of the face.
    pub open spec fn normal(self) -> Vec3 {
        match self {
            Face::Front => Vec3 { x: 0, y: -1, z: 0 },
            Face::Back => Vec3 { x: 0, y: 1, z: 0 },
            Face::Left => Vec3 { x: -1, y: 0, z: 0 },
            Face::Right => Vec3 { x: 1, y: 0, z: 0 },
            Face::Up => Vec3 { x: 0, y: 0, z: 1 },
            Face::Down => Vec3 { x: 0, y: 0, z: -1 },
        }
    }

    /// The face whose outward normal is `v`, if there is one.
    pub open spec fn facing(v: Vec3) -> Option<Face> {
        if v == Face::Front.normal() {
            Some(Face::Front)
        } else if v == Face::Back.normal() {
            Some(Face::Back)
        } else if v == Face::Left.normal() {
            Some(Face::Left)
        } else if v == Face::Right.normal() {
            Some(Face::Right)
        } else if v == Face::Up.normal() {
            Some(Face::Up)
        } else if v == Face::Down.normal() {
            Some(Face::Down)
        } else {
            None
        }
    }

    /// The colour of the face on the solved puzzle.
    pub open spec fn solved_color(self) -> Color {
        match self {
            Face::Front => Color::Green,
            Face::Back => Color::Blue,
            Face::Left => Color::Orange,
            Face::Right => Color::Red,
            Face::Up => Color::White,
            Face::Down => Color::Yellow,
        }
    }

    /// The quarter turn about the axis of the face that carries its layer
    /// one step in the sense `dir`, as seen from outside the face.
    #[verifier::opaque]
    pub open spec fn rotation(self, dir: Direction) -> Mat3 {
        let cw = dir == Direction::CW;
        match self {
            Face::Front => Mat3::rotation_y(!cw),
            Face::Back => Mat3::rotation_y(cw),
            Face::Left => Mat3::rotation_x(!cw),
            Face::Right => Mat3::rotation_x(cw),
            Face::Down => Mat3::rotation_z(!cw),
            Face::Up => Mat3::rotation_z(cw),
        }
    }

    /// The offset from the centre of the face to the middle of its top edge.
    pub open spec fn edge_offset(self) -> Vec3 {
        match self {
            Face::Front | Face::Back | Face::Left | Face::Right => Vec3 { x: 0, y: 0, z: 1 },
            Face::Up => Vec3 { x: 0, y: 1, z: 0 },
            Face::Down => Vec3 { x: 0, y: -1, z: 0 },
        }
    }

    /// The offset from the centre of the face to its top left corner.
    pub open spec fn corner_offset(self) -> Vec3 {
        match self {
            Face::Front => Vec3 { x: -1, y: 0, z: 1 },
            Face::Right => Vec3 { x: 0, y: -1, z: 1 },
            Face::Left => Vec3 { x: 0, y: 1, z: 1 },
            Face::Back => Vec3 { x: 1, y: 0, z: 1 },
            Face::Up => Vec3 { x: -1, y: 1, z: 0 },
            Face::Down => Vec3 { x: -1, y: -1, z: 0 },
        }
    }

    /// The direction that points up on the face as seen from outside.
    pub open spec fn upward(self) -> Vec3 {
        self.edge_offset()
    }

    /// The direction that points right on the face as seen from outside.
    pub open spec fn rightward(self) -> Vec3 {
        self.edge_offset().minus(self.corner_offset())
    }

    /// The six faces, in the order of their declaration.
    pub open spec fn all() -> Seq<Face> {
        seq![Face::Front, Face::Back, Face::Left, Face::Right, Face::Up, Face::Down]
    }

    /// The outward unit normal of the face.
    pub fn direction(&self) -> (v: Vector)
        ensures
            v@ == self.normal(),
    {
        match self {
            Self::Front => Vector::new(0, -1, 0),
            Self::Back => Vector::new(0, 1, 0),
            Self::Left => Vector::new(-1, 0, 0),
            Self::Right => Vector::new(1, 0, 0),
            Self::Up => Vector::new(0, 0, 1),
            Self::Down => Vector::new(0, 0, -1),
        }
    }

    /// The face whose outward normal is `v`; `None` if `v` is no unit vector
    /// along an axis.
    pub fn from_direction(v: &Vector) -> (f: Option<Self>)
        ensures
            f == Face::facing(v@),
    {
        let (x, y, z) = (v.x(), v.y(), v.z());
        if x == 0 && y == -1 && z == 0 {
            Some(Face::Front)
        } else if x == 0 && y == 1 && z == 0 {
            Some(Face::Back)
        } else if x == -1 && y == 0 && z == 0 {
            Some(Face::Left)
        } else if x == 1 && y == 0 && z == 0 {
            Some(Face::Right)
        } else if x == 0 && y == 0 && z == 1 {
            Some(Face::Up)
        } else if x == 0 && y == 0 && z == -1 {
            Some(Face::Down)
        } else {
            None
        }
    }

    /// The colour of the face on the solved puzzle.
    pub fn initial_color(&self) -> (c: Color)
        ensures
            c == self.solved_color(),
    {
        match self {
            Self::Front => Color::Green,
            Self::Back => Color::Blue,
            Self::Left => Color::Orange,
            Self::Right => Color::Red,
            Self::Up => Color::White,
            Self::Down => Color::Yellow,
        }
    }

    /// The six faces.
    pub fn iter() -> (faces: [Face; 6])
        ensures
            faces@ == Face::all(),
    {
        [Self::Front, Self::Back, Self::Left, Self::Right, Self::Up, Self::Down]
    }

    /// The matrix of the quarter turn of this face in the sense `dir`.
    /// Applied again and again to a lattice point on the ring of the face,
    /// it visits the four corners, or the four edges, in turning order.
    pub fn rotation_matrix(&self, dir: Direction) -> (m: Matrix)
        ensures
            m@ == self.rotation(dir),
    {
        proof {
            reveal(Face::rotation);
        }
        let cw = dir == Direction::CW;
        match self {
            Self::Front => Matrix::rotation_y(!cw),
            Self::Back => Matrix::rotation_y(cw),
            Self::Left => Matrix::rotation_x(!cw),
            Self::Right => Matrix::rotation_x(cw),
            Self::Down => Matrix::rotation_z(!cw),
            Self::Up => Matrix::rotation_z(cw),
        }
    }

    /// The offset from the centre of the face to the middle of its top edge.
    pub fn edge_orth(&self) -> (v: Vector)
        ensures
            v@ == self.edge_offset(),
    {
        match self {
            Self::Front | Self::Back | Self::Left | Self::Right => Vector::new(0, 0, 1),
            Self::Up => Vector::new(0, 1, 0),
            Self::Down => Vector::new(0, -1, 0),
        }
    }

    /// The offset from the centre of the face to its top left corner.
    pub fn corner_orth(&self) -> (v: Vector)
        ensures
            v@ == self.corner_offset(),
    {
        match self {
            Self::Front => Vector::new(-1, 0, 1),
            Self::Right => Vector::new(0, -1, 1),
            Self::Left => Vector::new(0, 1, 1),
            Self::Back => Vector::new(1, 0, 1),
            Self::Up => Vector::new(-1, 1, 0),
            Self::Down => Vector::new(-1, -1, 0),
        }
    }
}

/// One of the 27 pieces of the puzzle. Each colour is bound to the direction
/// vector with the same position in the piece.
#[derive(Debug, Clone, Copy, Eq)]
pub enum Piece {
    Center(Vector, Color),
    Edge([Vector; 2], [Color; 2]),
    Corner([Vector; 3], [Color; 3]),
    Middle,
}

impl PartialEq for Piece {
    fn eq(&self, other: &Self) -> (r: bool) {
        match (self, other) {
            (Self::Middle, Self::Middle) => true,
            (Self::Center(v, c), Self::Center(w, e)) => *v == *w && *c == *e,
            (Self::Edge(v, c), Self::Edge(w, e)) => {
                v[0] == w[0] && v[1] == w[1] && c[0] == e[0] && c[1] == e[1]
            },
            (Self::Corner(v, c), Self::Corner(w, e)) => {
                v[0] == w[0] && v[1] == w[1] && v[2] == w[2] && c[0] == e[0] && c[1] == e[1] && c[2]
                    == e[2]
            },
            _ => false,
        }
    }
}

impl PartialEqSpecImpl for Piece {
    open spec fn obeys_eq_spec() -> bool {
        true
    }

    open spec fn eq_spec(&self, other: &Self) -> bool {
        self@ == other@
    }
}

impl View for Piece {
    type V = PieceView;

    open spec fn view(&self) -> PieceView {
        match *self {
            Piece::Middle => PieceView::Middle,
            Piece::Center(v, c) => PieceView::Center(v@, c),
            Piece::Edge(v, c) => PieceView::Edge(v[0]@, v[1]@, c[0], c[1]),
            Piece::Corner(v, c) => PieceView::Corner(v[0]@, v[1]@, v[2]@, c[0], c[1], c[2]),
        }
    }
}

/// A piece is determined by its view.
pub proof fn lemma_piece_view_injective(a: Piece, b: Piece)
    requires
        a@ == b@,
    ensures
        a == b,
{
    match (a, b) {
        (Piece::Center(v, _), Piece::Center(w, _)) => {
            lemma_vector_view_injective(v, w);
        },
        (Piece::Edge(v, c), Piece::Edge(w, e)) => {
            lemma_vector_view_injective(v[0], w[0]);
            lemma_vector_view_injective(v[1], w[1]);
            assert(v =~= w);
            assert(c =~= e);
        },
        (Piece::Corner(v, c), Piece::Corner(w, e)) => {
            lemma_vector_view_injective(v[0], w[0]);
            lemma_vector_view_injective(v[1], w[1]);
            lemma_vector_view_injective(v[2], w[2]);
            assert(v =~= w);
            assert(c =~= e);
        },
        _ => {},
    }
}

/// The sum of three `i32` values, where it can be held in an `i32`.
fn sum3(a: i32, b: i32, c: i32) -> (s: i32)
    requires
        i32::MIN <= a + b + c <= i32::MAX,
    ensures
        s == a + b + c,
{
    ((a as i64) + (b as i64) + (c as i64)) as i32
}

impl Piece {
    /// Where the piece sits: the sum of its direction vectors.
    pub fn coordinate(&self) -> (p: Vector)
        requires
            self@.coordinate().fits(),
        ensures
            p@ == self@.coordinate(),
    {
        match self {
            Self::Middle => Vector::new(0, 0, 0),
            Self::Center(v, _) => v.clone(),
            Self::Edge(v, _) => Vector::new(
                sum3(v[0].x(), v[1].x(), 0),
                sum3(v[0].y(), v[1].y(), 0),
                sum3(v[0].z(), v[1].z(), 0),
            ),
            Self::Corner(v, _) => Vector::new(
                sum3(v[0].x(), v[1].x(), v[2].x()),
                sum3(v[0].y(), v[1].y(), v[2].y()),
                sum3(v[0].z(), v[1].z(), v[2].z()),
            ),
        }
    }

    /// The colour of the sticker that faces `dir`; `None` if the piece has no
    /// sticker facing exactly that way.
    pub fn color(&self, dir: &Vector) -> (c: Option<Color>)
        ensures
            c == self@.color(dir@),
    {
        match self {
            Self::Center(v, c) if *dir == *v => Some(*c),
            Self::Edge(v, c) if *dir == v[0] => Some(c[0]),
            Self::Edge(v, c) if *dir == v[1] => Some(c[1]),
            Self::Corner(v, c) if *dir == v[0] => Some(c[0]),
            Self::Corner(v, c) if *dir == v[1] => Some(c[1]),
            Self::Corner(v, c) if *dir == v[2] => Some(c[2]),
            _ => None,
        }
    }

    /// Turns the piece: every direction vector is multiplied by `rot`, and
    /// every colour stays with its vector.
    pub fn rotate(&mut self, rot: &Matrix)
        requires
            old(self)@.rotated(rot@).fits(),
        ensures
            final(self)@ == old(self)@.rotated(rot@),
    {
        match self {
            Self::Middle => (),
            Self::Center(v, _) => *v = rot.mul_vec(v),
            Self::Edge(v, _) => {
                v[0] = rot.mul_vec(&v[0]);
                v[1] = rot.mul_vec(&v[1]);
            },
            Self::Corner(v, _) => {
                v[0] = rot.mul_vec(&v[0]);
                v[1] = rot.mul_vec(&v[1]);
                v[2] = rot.mul_vec(&v[2]);
            },
        }
    }
}

/// The colours of one face of the puzzle: a grid of three columns and
/// three rows, seen from outside the face.
#[derive(Debug, Clone, Copy, Eq)]
pub struct CubeFace {
    squares: [Color; 9],
}

impl PartialEq for CubeFace {
    fn eq(&self, other: &Self) -> (r: bool) {
        let mut same = true;
        for i in 0..9usize
            invariant
                same <==> forall|j: int| 0 <= j < i ==> #[trigger] self.squares[j] == other.squares[j],
        {
            if self.squares[i] != other.squares[i] {
                same = false;
            }
        }
        assert(same <==> self@ =~= other@);
        same
    }
}

impl PartialEqSpecImpl for CubeFace {
    open spec fn obeys_eq_spec() -> bool {
        true
    }

    open spec fn eq_spec(&self, other: &Self) -> bool {
        self@ == other@
    }
}

impl View for CubeFace {
    type V = Seq<Color>;

    /// The nine colours row by row, each row from left to right.
    closed spec fn view(&self) -> Seq<Color> {
        self.squares@
    }
}

impl core::ops::Index<(usize, usize)> for CubeFace {
    type Output = Color;

    /// The colour in column `i.0` and row `i.1`.
    fn index(&self, i: (usize, usize)) -> (c: &Color)
        ensures
            *c == self.at(i.0 as int, i.1 as int),
    {
        &self.squares[i.0 + i.1 * 3]
    }
}

impl vstd::std_specs::core::IndexSpecImpl<(usize, usize)> for CubeFace {
    open spec fn index_req(&self, i: &(usize, usize)) -> bool {
        i.0 < 3 && i.1 < 3
    }
}

impl CubeFace {
    /// The colour in column `col` and row `row`, both counted from 0 at the
    /// top left.
    pub open spec fn at(&self, col: int, row: int) -> Color {
        self@[col + row * 3]
    }

    /// A face with nine white squares.
    pub fn white() -> (cf: Self)
        ensures
            cf@ == Seq::new(9, |i: int| Color::White),
    {
        let cf = Self { squares: [Color::White; 9] };
        assert(cf@ =~= Seq::new(9, |i: int| Color::White));
        cf
    }

    /// Sets the colour in column `c.0` and row `c.1`.
    pub fn set(&mut self, c: (usize, usize), col: Color)
        requires
            c.0 < 3,
            c.1 < 3,
        ensures
            final(self)@ == old(self)@.update(c.0 + c.1 * 3, col),
    {
        self.squares[c.0 + c.1 * 3] = col;
    }

    /// The colour in column `col` and row `row`.
    pub fn get(&self, col: usize, row: usize) -> (c: Color)
        requires
            col < 3,
            row < 3,
        ensures
            c == self.at(col as int, row as int),
    {
        self.squares[col + row * 3]
    }
}

/// The puzzle: a table of 27 pieces, one for each point of {-1, 0, 1}^3.
#[derive(Debug, Eq)]
pub struct Cube {
    pieces: [Piece; 27],
}

impl PartialEq for Cube {
    fn eq(&self, other: &Self) -> (r: bool) {
        let mut same = true;
        for i in 0..27usize
            invariant
                same <==> forall|j: int| 0 <= j < i ==> (#[trigger] self@[j]) == other@[j],
        {
            assert(self@[i as int] == self.pieces[i as int]@);
            assert(other@[i as int] == other.pieces[i as int]@);
            if self.pieces[i] != other.pieces[i] {
                same = false;
            }
        }
        assert(same <==> self@ =~= other@);
        same
    }
}

impl PartialEqSpecImpl for Cube {
    open spec fn obeys_eq_spec() -> bool {
        true
    }

    open spec fn eq_spec(&self, other: &Self) -> bool {
        self@ == other@
    }
}

impl Clone for Cube {
    fn clone(&self) -> (cube: Self)
        ensures
            cube == *self,
    {
        Self { pieces: self.pieces }
    }
}

impl core::ops::Index<&Vector> for Cube {
    type Output = Piece;

    /// The piece at the lattice point `rc`.
    fn index(&self, rc: &Vector) -> (p: &Piece)
        ensures
            p@ == self@[slot_index(rc@)],
    {
        self.piece(rc)
    }
}

impl vstd::std_specs::core::IndexSpecImpl<&Vector> for Cube {
    open spec fn index_req(&self, rc: &&Vector) -> bool {
        in_lattice(rc@)
    }
}

impl View for Cube {
    type V = Seq<PieceView>;

    /// The pieces slot by slot; slot `(x + 1) * 9 + (y + 1) * 3 + (z + 1)`
    /// holds the piece at the lattice point (x, y, z).
    closed spec fn view(&self) -> Seq<PieceView> {
        Seq::new(27, |i: int| self.pieces[i]@)
    }
}

impl Cube {
    /// The table of a cube has 27 slots.
    pub proof fn lemma_view_len(self)
        ensures
            self@.len() == 27,
    {
    }

    /// A cube is determined by its view: two cubes with the same view hold
    /// the same pieces in the same slots.
    pub proof fn lemma_view_injective(a: Cube, b: Cube)
        requires
            a@ == b@,
        ensures
            a == b,
    {
        assert forall|i: int| 0 <= i < 27 implies a.pieces[i] == b.pieces[i] by {
            assert(a@[i] == a.pieces[i]@);
            assert(b@[i] == b.pieces[i]@);
            lemma_piece_view_injective(a.pieces[i], b.pieces[i]);
        }
        assert(a.pieces =~= b.pieces);
    }

    /// Every piece is well formed and sits in the slot of its own
    /// coordinate.
    pub open spec fn wf(&self) -> bool {
        well_formed(self@)
    }

    /// The solved puzzle: every face shows its own colour.
    ///
    /// The pieces are made by [`Cube::generate_pieces`] and each is put into
    /// the slot of its own coordinate. That this fills every slot exactly
    /// once is proved, so the tests of the flags below can never fail.
    pub fn new() -> (cube: Self)
        ensures
            cube@ == solved(),
            cube.wf(),
    {
        let mut table: [Piece; 27] = [Piece::Middle; 27];
        let mut filled: [bool; 27] = [false; 27];
        let pieces = Self::generate_pieces();

        for k in 0..27usize
            invariant
                pieces@.len() == 27,
                forall|j: int|
                    0 <= j < 27 ==> (#[trigger] pieces@[j])@ == solved_piece(generated_point(j)),
                forall|i: int|
                    0 <= i < 27 ==> (#[trigger] filled[i] <==> generated_place(slot_at(i)) < k),
                forall|i: int|
                    0 <= i < 27 && filled[i] ==> (#[trigger] table[i])@ == solved_piece(slot_at(i)),
        {
            let pie = pieces[k];
            proof {
                lemma_generation_covers();
                lemma_slots();
                lemma_solved_piece(generated_point(k as int));
            }
            let c = Self::piece_index(&pie.coordinate());
            if filled[c] {
                unreached::<()>();
            }
            table[c] = pie;
            filled[c] = true;
        }

        proof {
            lemma_generation_covers();
            lemma_slots();
        }
        for i in 0..27usize
            invariant
                forall|i: int| 0 <= i < 27 ==> #[trigger] filled[i],
        {
            if !filled[i] {
                unreached::<()>();
            }
        }

        let cube = Self { pieces: table };
        proof {
            assert(cube@ =~= solved());
            lemma_solved_well_formed();
        }
        cube
    }

    /// The 27 pieces of the solved puzzle: the middle, the six centres, then
    /// the edges and the corners, each group of four made from one of its
    /// members by quarter turns about the x axis. Every sticker has the
    /// colour of the face it lies on.
    pub fn generate_pieces() -> (res: Vec<Piece>)
        ensures
            res@.len() == 27,
            forall|k: int| 0 <= k < 27 ==> (#[trigger] res@[k])@ == solved_piece(generated_point(k)),
    {
        let mut res: Vec<Piece> = Vec::with_capacity(27);
        res.push(Piece::Middle);

        // fill centers
        let faces = Face::iter();
        for i in 0..6usize
            invariant
                faces@ == Face::all(),
                res@.len() == 1 + i,
                forall|k: int|
                    0 <= k < res@.len() ==> (#[trigger] res@[k])@ == solved_piece(generated_point(k)),
        {
            let f = faces[i];
            res.push(Piece::Center(f.direction(), f.initial_color()));
        }

        // fill edges
        let trans = Matrix::rotation_x(true);
        let edge_groups: [i32; 3] = [-1, 1, 0];
        for a in 0..3usize
            invariant
                trans@ == Mat3::rotation_x(true),
                edge_groups[0] == -1,
                edge_groups[1] == 1,
                edge_groups[2] == 0,
                res@.len() == 7 + 4 * a,
                forall|k: int|
                    0 <= k < res@.len() ==> (#[trigger] res@[k])@ == solved_piece(generated_point(k)),
        {
            let x = edge_groups[a];
            let mut rotator = Vector::new(x, if x == 0 { 1 } else { 0 }, 1);
            for b in 0..4usize
                invariant
                    0 <= a < 3,
                    trans@ == Mat3::rotation_x(true),
                    rotator@ == x_turns(edge_seed(a as int), b as int),
                    res@.len() == 7 + 4 * a + b,
                    forall|k: int|
                        0 <= k < res@.len() ==> (#[trigger] res@[k])@ == solved_piece(
                            generated_point(k),
                        ),
            {
                proof {
                    lemma_x_turn(edge_seed(a as int), b as int);
                }
                rotator = trans.mul_vec(&rotator);
                let comp = rotator.components2();
                let colors = [
                    Face::from_direction(&comp[0]).unwrap().initial_color(),
                    Face::from_direction(&comp[1]).unwrap().initial_color(),
                ];
                assert(generated_point(7 + 4 * a + b) == rotator@);
                res.push(Piece::Edge(comp, colors));
            }
        }

        // fill corners
        let corner_groups: [i32; 2] = [-1, 1];
        for a in 0..2usize
            invariant
                trans@ == Mat3::rotation_x(true),
                corner_groups[0] == -1,
                corner_groups[1] == 1,
                res@.len() == 19 + 4 * a,
                forall|k: int|
                    0 <= k < res@.len() ==> (#[trigger] res@[k])@ == solved_piece(generated_point(k)),
        {
            let x = corner_groups[a];
            let mut rotator = Vector::new(x, 1, 1);
            for b in 0..4usize
                invariant
                    0 <= a < 2,
                    trans@ == Mat3::rotation_x(true),
                    rotator@ == x_turns(corner_seed(a as int), b as int),
                    res@.len() == 19 + 4 * a + b,
                    forall|k: int|
                        0 <= k < res@.len() ==> (#[trigger] res@[k])@ == solved_piece(
                            generated_point(k),
                        ),
            {
                proof {
                    lemma_x_turn(corner_seed(a as int), b as int);
                }
                rotator = trans.mul_vec(&rotator);
                let comp = rotator.components();
                let colors = [
                    Face::from_direction(&comp[0]).unwrap().initial_color(),
                    Face::from_direction(&comp[1]).unwrap().initial_color(),
                    Face::from_direction(&comp[2]).unwrap().initial_color(),
                ];
                assert(generated_point(19 + 4 * a + b) == rotator@);
                res.push(Piece::Corner(comp, colors));
            }
        }

        res
    }

    /// The number of the table slot for the lattice point `v`.
    pub fn piece_index(v: &Vector) -> (i: usize)
        requires
            in_lattice(v@),
        ensures
            i == slot_index(v@),
            i < 27,
    {
        ((v.x() + 1) * 9 + (v.y() + 1) * 3 + (v.z() + 1)) as usize
    }

    /// The piece at the lattice point `rc`.
    pub fn piece(&self, rc: &Vector) -> (p: &Piece)
        requires
            in_lattice(rc@),
        ensures
            p@ == self@[slot_index(rc@)],
    {
        &self.pieces[Self::piece_index(rc)]
    }

    /// The colours of the face `f` as seen from outside it.
    pub fn face(&self, f: Face) -> (cf: CubeFace)
        requires
            self.wf(),
        ensures
            cf@ == face_colors(self@, f),
            forall|col: int, row: int|
                0 <= col < 3 && 0 <= row < 3 ==> #[trigger] cf.at(col, row) == sticker(self@, f, col, row),
    {
        let mut cf = CubeFace::white();

        let dir = f.direction();
        let rot = f.rotation_matrix(Direction::CW);

        proof {
            lemma_cycle_heads(f, Direction::CCW);
        }
        let mut corner = f.corner_orth();
        corner.add_vec(&dir);
        let corners: [(usize, usize); 4] = [(0, 0), (2, 0), (2, 2), (0, 2)];
        for k in 0..4usize
            invariant
                self.wf(),
                dir@ == f.normal(),
                rot@ == f.rotation(Direction::CW),
                corners[0] == (0usize, 0usize),
                corners[1] == (2usize, 0usize),
                corners[2] == (2usize, 2usize),
                corners[3] == (0usize, 2usize),
                corner@ == cycle_point(f, Direction::CCW, 0, 0, k as int),
                cf@.len() == 9,
                k > 0 ==> cf.at(0, 0) == sticker(self@, f, 0, 0),
                k > 1 ==> cf.at(2, 0) == sticker(self@, f, 2, 0),
                k > 2 ==> cf.at(2, 2) == sticker(self@, f, 2, 2),
                k > 3 ==> cf.at(0, 2) == sticker(self@, f, 0, 2),
        {
            proof {
                lemma_face_cell(self@, f, 0, k as int);
            }
            cf.set(corners[k], self.piece(&corner).color(&dir).unwrap());
            corner = rot.mul_vec(&corner);
        }

        let mut edge = f.edge_orth();
        edge.add_vec(&dir);
        let edges: [(usize, usize); 4] = [(1, 0), (2, 1), (1, 2), (0, 1)];
        for k in 0..4usize
            invariant
                self.wf(),
                dir@ == f.normal(),
                rot@ == f.rotation(Direction::CW),
                edges[0] == (1usize, 0usize),
                edges[1] == (2usize, 1usize),
                edges[2] == (1usize, 2usize),
                edges[3] == (0usize, 1usize),
                edge@ == cycle_point(f, Direction::CCW, 1, 0, k as int),
                cf@.len() == 9,
                cf.at(0, 0) == sticker(self@, f, 0, 0),
                cf.at(2, 0) == sticker(self@, f, 2, 0),
                cf.at(2, 2) == sticker(self@, f, 2, 2),
                cf.at(0, 2) == sticker(self@, f, 0, 2),
                k > 0 ==> cf.at(1, 0) == sticker(self@, f, 1, 0),
                k > 1 ==> cf.at(2, 1) == sticker(self@, f, 2, 1),
                k > 2 ==> cf.at(1, 2) == sticker(self@, f, 1, 2),
                k > 3 ==> cf.at(0, 1) == sticker(self@, f, 0, 1),
        {
            proof {
                lemma_face_cell(self@, f, 1, k as int);
            }
            cf.set(edges[k], self.piece(&edge).color(&dir).unwrap());
            edge = rot.mul_vec(&edge);
        }

        proof {
            lemma_face_middle(self@, f);
        }
        cf.set((1, 1), self.piece(&dir).color(&dir).unwrap());

        assert forall|col: int, row: int| 0 <= col < 3 && 0 <= row < 3 implies #[trigger] cf.at(
            col,
            row,
        ) == sticker(self@, f, col, row) by {
            assert(col == 0 || col == 1 || col == 2);
            assert(row == 0 || row == 1 || row == 2);
        }
        assert forall|i: int| 0 <= i < 9 implies cf@[i] == face_colors(self@, f)[i] by {
            assert(cf.at(i % 3, i / 3) == sticker(self@, f, i % 3, i / 3));
        }
        assert(cf@ =~= face_colors(self@, f));
        cf
    }

    /// Turns the piece at the lattice point `rc` in place.
    fn rotate_at(&mut self, rc: &Vector, rot: &Matrix)
        requires
            in_lattice(rc@),
            old(self)@[slot_index(rc@)].rotated(rot@).fits(),
        ensures
            final(self)@ == old(self)@.update(
                slot_index(rc@),
                old(self)@[slot_index(rc@)].rotated(rot@),
            ),
    {
        let i = Self::piece_index(rc);
        self.pieces[i].rotate(rot);
        assert(self@ =~= old(self)@.update(slot_index(rc@), old(self)@[slot_index(rc@)].rotated(rot@)));
    }

    /// Exchanges the pieces at the lattice points `v1` and `v2`.
    fn swap(&mut self, v1: &Vector, v2: &Vector)
        requires
            in_lattice(v1@),
            in_lattice(v2@),
        ensures
            final(self)@ == old(self)@.update(slot_index(v1@), old(self)@[slot_index(v2@)]).update(
                slot_index(v2@),
                old(self)@[slot_index(v1@)],
            ),
    {
        let i1 = Self::piece_index(v1);
        let i2 = Self::piece_index(v2);
        let first = self.pieces[i1];
        let second = self.pieces[i2];
        self.pieces[i1] = second;
        self.pieces[i2] = first;
        assert(self@ =~= old(self)@.update(slot_index(v1@), old(self)@[slot_index(v2@)]).update(
            slot_index(v2@),
            old(self)@[slot_index(v1@)],
        ));
    }

    /// One exchange of a turn: turns the piece at `next`, lets it change
    /// places with the piece at `here`, and moves both points on by `rotn`.
    fn exchange(&mut self, here: &mut Vector, next: &mut Vector, rot: &Matrix, rotn: &Matrix)
        requires
            in_lattice(old(here)@),
            in_lattice(old(next)@),
            slot_index(old(here)@) != slot_index(old(next)@),
            rotn@.apply(old(here)@).fits(),
            rotn@.apply(old(next)@).fits(),
            old(self)@[slot_index(old(next)@)].rotated(rot@).fits(),
        ensures
            final(self)@ == old(self)@.update(
                slot_index(old(here)@),
                old(self)@[slot_index(old(next)@)].rotated(rot@),
            ).update(slot_index(old(next)@), old(self)@[slot_index(old(here)@)]),
            final(here)@ == rotn@.apply(old(here)@),
            final(next)@ == rotn@.apply(old(next)@),
    {
        self.rotate_at(next, rot);
        self.swap(here, next);
        *here = rotn.mul_vec(here);
        *next = rotn.mul_vec(next);
        assert(self@ =~= old(self)@.update(
            slot_index(old(here)@),
            old(self)@[slot_index(old(next)@)].rotated(rot@),
        ).update(slot_index(old(next)@), old(self)@[slot_index(old(here)@)]));
    }

    /// Turns the face `face` by a quarter in the sense `dir`.
    ///
    /// The four corners and the four edges round the face each move one step
    /// on, and every piece that moves has its stickers turned with it.
    pub fn turn(&mut self, face: Face, dir: Direction)
        requires
            old(self).wf(),
        ensures
            final(self)@ == turned(old(self)@, face, dir),
            final(self).wf(),
            final(self)@[slot_index(Vec3::zero())] == old(self)@[slot_index(Vec3::zero())],
    {
        let ghost t0 = self@;
        let base = face.direction();
        let rot = face.rotation_matrix(dir);
        let rotn = face.rotation_matrix(dir.not());

        proof {
            lemma_cycle_heads(face, dir);
            lemma_cycle_slots(face, dir);
        }
        let mut corner1 = face.corner_orth();
        let mut corner2 = rotn.mul_vec(&corner1);
        let mut edge1 = face.edge_orth();
        let mut edge2 = rotn.mul_vec(&edge1);
        corner1.add_vec(&base);
        corner2.add_vec(&base);
        edge1.add_vec(&base);
        edge2.add_vec(&base);

        proof {
            lemma_rotated_piece(t0[slot_index(corner1@)], face, dir);
            lemma_rotated_piece(t0[slot_index(edge1@)], face, dir);
        }
        self.rotate_at(&corner1, &rot);
        self.rotate_at(&edge1, &rot);
        proof {
            lemma_partly_turned_start(t0, face, dir);
        }

        for j in 0..3usize
            invariant
                well_formed(t0),
                rot@ == face.rotation(dir),
                rotn@ == face.rotation(dir.opposite()),
                self@ == partly_turned(t0, face, dir, j as int, j as int),
                corner1@ == cycle_point(face, dir, 0, 0, j as int),
                corner2@ == cycle_point(face, dir, 0, 0, j + 1),
                edge1@ == cycle_point(face, dir, 1, 0, j as int),
                edge2@ == cycle_point(face, dir, 1, 0, j + 1),
        {
            proof {
                lemma_exchange_ready(t0, face, dir, 0, j as int, j as int);
                lemma_partly_turned_step(t0, face, dir, 0, j as int, j as int);
            }
            self.exchange(&mut corner1, &mut corner2, &rot, &rotn);

            proof {
                lemma_exchange_ready(t0, face, dir, 1, j + 1, j as int);
                lemma_partly_turned_step(t0, face, dir, 1, j + 1, j as int);
            }
            self.exchange(&mut edge1, &mut edge2, &rot, &rotn);
        }

        proof {
            lemma_partly_turned_done(t0, face, dir);
            lemma_turned_well_formed(t0, face, dir);
            lemma_turn_keeps_middle(t0, face, dir);
        }
    }

    /// Plays the text `turns`: words separated by spaces, each a face letter
    /// (`R`, `L`, `U`, `D`, `B`, `F`) that may be followed by `'` for the
    /// counterclockwise sense or by `2` for two quarter turns.
    ///
    /// A word of more than two characters, or one that does not begin with a
    /// face letter, is an error. The moves before it have been made by then
    /// and stay made; nothing after it is played.
    pub fn turns(&mut self, turns: &str) -> (res: Result<(), ()>)
        requires
            old(self).wf(),
        ensures
            final(self)@ == played(old(self)@, turns@).0,
            res is Ok <==> played(old(self)@, turns@).1,
            final(self).wf(),
            final(self)@[slot_index(Vec3::zero())] == old(self)@[slot_index(Vec3::zero())],
    {
        let ghost t0 = self@;
        let chars = chars_of(turns);
        let n = chars.len();
        let mut i: usize = 0;
        proof {
            assert(chars@.skip(0) =~= chars@);
        }
        while i < n
            invariant
                i <= n,
                n == chars@.len(),
                chars@ == turns@,
                t0 == old(self)@,
                t0.len() == 27,
                self.wf(),
                self@[slot_index(Vec3::zero())] == t0[slot_index(Vec3::zero())],
                played(t0, turns@) == played(self@, chars@.skip(i as int)),
            decreases n - i,
        {
            if chars[i] == ' ' {
                proof {
                    lemma_played_space(self@, chars@, i as int);
                }
                i += 1;
                continue;
            }
            let mut j: usize = i + 1;
            while j < n && chars[j] != ' '
                invariant
                    i < j <= n,
                    n == chars@.len(),
                    forall|m: int| i <= m < j ==> chars@[m] != ' ',
                decreases n - j,
            {
                j += 1;
            }
            let len = j - i;
            proof {
                lemma_played_word(self@, chars@, i as int, j as int);
            }
            let ghost word = chars@.subrange(i as int, j as int);

            if len > 2 {
                return Err(());
            }
            let face = match chars[i] {
                'R' => Face::Right,
                'L' => Face::Left,
                'U' => Face::Up,
                'D' => Face::Down,
                'B' => Face::Back,
                'F' => Face::Front,
                _ => return Err(()),
            };

            let dir = if len == 2 && chars[i + 1] == '\'' {
                Direction::CCW
            } else {
                Direction::CW
            };

            assert(move_of(word) == Some(
                Move { face, dir, twice: len == 2 && chars@[i + 1] == '2' },
            ));
            if len == 2 && chars[i + 1] == '2' {
                self.turn(face, dir);
            }
            self.turn(face, dir);
            i = j;
        }
        proof {
            assert(chars@.skip(n as int) =~= Seq::<char>::empty());
        }
        Ok(())
    }
}

/// The characters of `s`.
fn chars_of(s: &str) -> (v: Vec<char>)
    ensures
        v@ == s@,
{
    let mut v: Vec<char> = Vec::new();
    for c in it: s.chars()
        invariant
            it.seq() == s@,
            v@ == s@.take(it.index()),
    {
        v.push(c);
    }
    assert(s@.take(s@.len() as int) =~= s@);
    v
}

} // verus!
