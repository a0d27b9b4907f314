//! The puzzle as text: its six faces unfolded into a cross, with the upper
//! face on top, the left, front, right and back faces side by side in the
//! middle, and the lower face at the bottom.

use crate::cube::{Color, Cube, CubeFace, Face};
use crate::model::{face_colors, PieceView};
use crate::text::lemma_appended;
use vstd::prelude::*;

verus! {

/// Row `row` of a face with the colours `g`: the letters of its three
/// colours, separated by single spaces.
pub open spec fn row_text(g: Seq<Color>, row: int) -> Seq<char> {
    g[3 * row].letter()@ + " "@ + g[3 * row + 1].letter()@ + " "@ + g[3 * row + 2].letter()@
}

/// A line with row `row` of a face that stands alone in the cross. It is
/// indented so as to stand above or below the front face.
pub open spec fn single_line(g: Seq<Color>, row: int) -> Seq<char> {
    "        "@ + row_text(g, row) + "\n"@
}

/// The first `n` lines of a face that stands alone in the cross.
pub open spec fn single_lines(g: Seq<Color>, n: int) -> Seq<char>
    decreases n,
{
    if n <= 0 {
        Seq::empty()
    } else {
        single_lines(g, n - 1) + single_line(g, n - 1)
    }
}

/// A line with row `row` of the four faces round the puzzle, which have the
/// colours `l`, `f`, `r` and `b`.
pub open spec fn band_line(l: Seq<Color>, f: Seq<Color>, r: Seq<Color>, b: Seq<Color>, row: int) -> Seq<
    char,
> {
    row_text(l, row) + " | "@ + row_text(f, row) + " | "@ + row_text(r, row) + " | "@ + row_text(
        b,
        row,
    ) + "\n"@
}

/// The first `n` lines of the four faces round the puzzle.
pub open spec fn band_lines(l: Seq<Color>, f: Seq<Color>, r: Seq<Color>, b: Seq<Color>, n: int) -> Seq<
    char,
>
    decreases n,
{
    if n <= 0 {
        Seq::empty()
    } else {
        band_lines(l, f, r, b, n - 1) + band_line(l, f, r, b, n - 1)
    }
}

/// The line that parts the upper and the lower face from the band.
pub open spec fn rule_line() -> Seq<char> {
    "        -----\n"@
}

/// The whole cross: eleven lines, each ended by a line feed.
pub open spec fn net_text(t: Seq<PieceView>) -> Seq<char> {
    single_lines(face_colors(t, Face::Up), 3) + rule_line() + band_lines(
        face_colors(t, Face::Left),
        face_colors(t, Face::Front),
        face_colors(t, Face::Right),
        face_colors(t, Face::Back),
        3,
    ) + rule_line() + single_lines(face_colors(t, Face::Down), 3)
}

/// Appends row `r` of the face `f` to `out`.
fn push_row(out: &mut String, f: &CubeFace, r: usize)
    requires
        r < 3,
        f@.len() == 9,
    ensures
        final(out)@ == old(out)@ + row_text(f@, r as int),
{
    out.append(f.get(0, r).short());
    out.append(" ");
    out.append(f.get(1, r).short());
    out.append(" ");
    out.append(f.get(2, r).short());
    assert(out@ =~= old(out)@ + row_text(f@, r as int));
}

/// Appends the indented line with row `r` of the face `f` to `out`.
fn push_single_line(out: &mut String, f: &CubeFace, r: usize)
    requires
        r < 3,
        f@.len() == 9,
    ensures
        final(out)@ == old(out)@ + single_line(f@, r as int),
{
    out.append("        ");
    push_row(out, f, r);
    out.append("\n");
    assert(out@ =~= old(out)@ + single_line(f@, r as int));
}

/// Appends the line with row `r` of the four faces round the puzzle to
/// `out`.
fn push_band_line(
    out: &mut String,
    left: &CubeFace,
    front: &CubeFace,
    right: &CubeFace,
    back: &CubeFace,
    r: usize,
)
    requires
        r < 3,
        left@.len() == 9,
        front@.len() == 9,
        right@.len() == 9,
        back@.len() == 9,
    ensures
        final(out)@ == old(out)@ + band_line(left@, front@, right@, back@, r as int),
{
    let ghost start = out@;
    let ghost row = r as int;
    push_row(out, left, r);
    let ghost line = row_text(left@, row);
    out.append(" | ");
    proof {
        lemma_appended(start, line, " | "@, out@);
        line = line + " | "@;
    }
    push_row(out, front, r);
    proof {
        lemma_appended(start, line, row_text(front@, row), out@);
        line = line + row_text(front@, row);
    }
    out.append(" | ");
    proof {
        lemma_appended(start, line, " | "@, out@);
        line = line + " | "@;
    }
    push_row(out, right, r);
    proof {
        lemma_appended(start, line, row_text(right@, row), out@);
        line = line + row_text(right@, row);
    }
    out.append(" | ");
    proof {
        lemma_appended(start, line, " | "@, out@);
        line = line + " | "@;
    }
    push_row(out, back, r);
    proof {
        lemma_appended(start, line, row_text(back@, row), out@);
        line = line + row_text(back@, row);
    }
    out.append("\n");
    proof {
        lemma_appended(start, line, "\n"@, out@);
    }
}

impl Cube {
    /// The six faces of the puzzle as text, unfolded into a cross.
    pub fn render_ascii(&self) -> (text: String)
        requires
            self.wf(),
        ensures
            text@ == net_text(self@),
    {
        let mut out = String::new();

        let up = self.face(Face::Up);
        for i in 0..3usize
            invariant
                up@.len() == 9,
                out@ == single_lines(up@, i as int),
        {
            push_single_line(&mut out, &up, i);
        }
        out.append("        -----\n");
        let ghost top = out@;

        let left = self.face(Face::Left);
        let front = self.face(Face::Front);
        let right = self.face(Face::Right);
        let back = self.face(Face::Back);

        for i in 0..3usize
            invariant
                left@.len() == 9,
                front@.len() == 9,
                right@.len() == 9,
                back@.len() == 9,
                out@ == top + band_lines(left@, front@, right@, back@, i as int),
        {
            push_band_line(&mut out, &left, &front, &right, &back, i);
            assert(out@ =~= top + band_lines(left@, front@, right@, back@, i + 1));
        }

        out.append("        -----\n");
        let ghost middle = out@;
        let down = self.face(Face::Down);
        for i in 0..3usize
            invariant
                down@.len() == 9,
                out@ == middle + single_lines(down@, i as int),
        {
            push_single_line(&mut out, &down, i);
            assert(out@ =~= middle + single_lines(down@, i + 1));
        }
        assert(out@ =~= net_text(self@));
        out
    }
}

} // verus!
