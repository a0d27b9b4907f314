//! The move notation: words separated by spaces, each a face letter that
//! may be followed by `'` for the reverse sense or by `2` for a half turn.

use crate::cube::{Direction, Face};
use crate::model::{turned, PieceView};
use vstd::prelude::*;

verus! {

/// One move: a quarter turn of `face` in the sense `dir`, made twice if
/// `twice` is set.
pub struct Move {
    pub face: Face,
    pub dir: Direction,
    pub twice: bool,
}

/// The face that the letter `c` names.
pub open spec fn face_of(c: char) -> Option<Face> {
    if c == 'R' {
        Some(Face::Right)
    } else if c == 'L' {
        Some(Face::Left)
    } else if c == 'U' {
        Some(Face::Up)
    } else if c == 'D' {
        Some(Face::Down)
    } else if c == 'B' {
        Some(Face::Back)
    } else if c == 'F' {
        Some(Face::Front)
    } else {
        None
    }
}

/// The move that the word `w` stands for. A word of more than two
/// characters, or one that does not begin with a face letter, stands for
/// none. A second character other than `'` and `2` changes nothing.
pub open spec fn move_of(w: Seq<char>) -> Option<Move> {
    if w.len() == 0 || w.len() > 2 {
        None
    } else {
        match face_of(w[0]) {
            None => None,
            Some(face) => Some(
                Move {
                    face,
                    dir: if w.len() == 2 && w[1] == '\'' {
                        Direction::CCW
                    } else {
                        Direction::CW
                    },
                    twice: w.len() == 2 && w[1] == '2',
                },
            ),
        }
    }
}

/// The table after the move `m`.
pub open spec fn moved(t: Seq<PieceView>, m: Move) -> Seq<PieceView> {
    if m.twice {
        turned(turned(t, m.face, m.dir), m.face, m.dir)
    } else {
        turned(t, m.face, m.dir)
    }
}

/// The number of characters of `s` before its first space; all of them if
/// it has no space.
pub open spec fn word_len(s: Seq<char>) -> int
    decreases s.len(),
{
    if s.len() == 0 || s[0] == ' ' {
        0
    } else {
        1 + word_len(s.drop_first())
    }
}

/// The word at the head of a text is not longer than the text, and not
/// empty where the text begins with a character other than a space.
pub proof fn lemma_word_len(s: Seq<char>)
    ensures
        0 <= word_len(s) <= s.len(),
        s.len() > 0 && s[0] != ' ' ==> word_len(s) >= 1,
    decreases s.len(),
{
    if s.len() > 0 && s[0] != ' ' {
        lemma_word_len(s.drop_first());
    }
}

/// What playing the text `s` on the table `t` leads to: the table, and
/// whether every word of `s` stands for a move. The words are played from
/// left to right, and the first word that stands for no move ends the
/// playing: the moves before it have been made, and nothing after it is
/// looked at.
pub open spec fn played(t: Seq<PieceView>, s: Seq<char>) -> (Seq<PieceView>, bool)
    decreases s.len(),
{
    if s.len() == 0 {
        (t, true)
    } else if s[0] == ' ' {
        played(t, s.drop_first())
    } else {
        let n = word_len(s);
        proof {
            lemma_word_len(s);
        }
        match move_of(s.take(n)) {
            None => (t, false),
            Some(m) => played(moved(t, m), s.skip(n)),
        }
    }
}

/// The word that begins at `i` ends at `j` if no space lies between them
/// and `j` is a space or the end of the text.
pub proof fn lemma_word_ends(s: Seq<char>, i: int, j: int)
    requires
        0 <= i <= j <= s.len(),
        forall|m: int| i <= m < j ==> s[m] != ' ',
        j == s.len() || s[j] == ' ',
    ensures
        word_len(s.skip(i)) == j - i,
    decreases j - i,
{
    if i < j {
        lemma_word_ends(s, i + 1, j);
        assert(s.skip(i).drop_first() =~= s.skip(i + 1));
    }
}

/// Playing a text that begins with a space is playing the rest.
pub proof fn lemma_played_space(t: Seq<PieceView>, s: Seq<char>, i: int)
    requires
        0 <= i < s.len(),
        s[i] == ' ',
    ensures
        played(t, s.skip(i)) == played(t, s.skip(i + 1)),
{
    assert(s.skip(i).drop_first() =~= s.skip(i + 1));
}

/// Playing a text that begins with a word is playing the move of that word
/// and then the rest, or stopping if the word stands for no move.
pub proof fn lemma_played_word(t: Seq<PieceView>, s: Seq<char>, i: int, j: int)
    requires
        0 <= i < j <= s.len(),
        forall|m: int| i <= m < j ==> s[m] != ' ',
        j == s.len() || s[j] == ' ',
    ensures
        played(t, s.skip(i)) == match move_of(s.subrange(i, j)) {
            None => (t, false),
            Some(m) => played(moved(t, m), s.skip(j)),
        },
{
    lemma_word_ends(s, i, j);
    assert(s.skip(i).take(j - i) =~= s.subrange(i, j));
    assert(s.skip(i).skip(j - i) =~= s.skip(j));
}

} // verus!
