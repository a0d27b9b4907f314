use rubik::cube::{Cube, Direction, Face};

fn played(moves: &str) -> (Cube, Result<(), ()>) {
    let mut cube = Cube::new();
    let res = cube.turns(moves);
    (cube, res)
}

fn turned(steps: &[(Face, Direction)]) -> Cube {
    let mut cube = Cube::new();
    for (face, dir) in steps {
        cube.turn(*face, *dir);
    }
    cube
}

#[test]
fn empty_text_changes_nothing() {
    assert_eq!(played(""), (Cube::new(), Ok(())));
}

#[test]
fn spaces_alone_change_nothing() {
    assert_eq!(played(" "), (Cube::new(), Ok(())));
    assert_eq!(played("     "), (Cube::new(), Ok(())));
}

#[test]
fn unknown_letter_is_an_error() {
    assert_eq!(played("Q"), (Cube::new(), Err(())));
}

#[test]
fn lower_case_letter_is_an_error() {
    assert_eq!(played("r"), (Cube::new(), Err(())));
}

#[test]
fn word_of_three_characters_is_an_error() {
    assert_eq!(played("R2'"), (Cube::new(), Err(())));
    assert_eq!(played("RRR"), (Cube::new(), Err(())));
    assert_eq!(played("R''"), (Cube::new(), Err(())));
}

#[test]
fn word_that_begins_with_a_mark_is_an_error() {
    assert_eq!(played("'R"), (Cube::new(), Err(())));
    assert_eq!(played("2"), (Cube::new(), Err(())));
}

#[test]
fn tab_is_no_separator() {
    assert_eq!(played("R\tU"), (Cube::new(), Err(())));
}

#[test]
fn every_face_letter_turns_its_face_clockwise() {
    let letters = [
        ("R", Face::Right),
        ("L", Face::Left),
        ("U", Face::Up),
        ("D", Face::Down),
        ("B", Face::Back),
        ("F", Face::Front),
    ];
    for (word, face) in letters {
        assert_eq!(played(word), (turned(&[(face, Direction::CW)]), Ok(())));
    }
}

#[test]
fn apostrophe_reverses_the_sense() {
    let letters = [
        ("R'", Face::Right),
        ("L'", Face::Left),
        ("U'", Face::Up),
        ("D'", Face::Down),
        ("B'", Face::Back),
        ("F'", Face::Front),
    ];
    for (word, face) in letters {
        assert_eq!(played(word), (turned(&[(face, Direction::CCW)]), Ok(())));
    }
}

#[test]
fn two_doubles_the_turn() {
    assert_eq!(played("R2"), played("R R"));
    assert_eq!(
        played("R2"),
        (turned(&[(Face::Right, Direction::CW), (Face::Right, Direction::CW)]), Ok(()))
    );
    assert_eq!(played("F2"), played("F F"));
    assert_eq!(played("U2 D2"), played("U U D D"));
}

#[test]
fn half_turn_is_the_same_in_both_senses() {
    assert_eq!(played("L2").0, played("L' L'").0);
}

#[test]
fn other_second_character_is_passed_over() {
    assert_eq!(played("Rx"), played("R"));
    assert_eq!(played("U3"), played("U"));
    assert_eq!(played("FF"), played("F"));
}

#[test]
fn words_are_played_from_left_to_right() {
    assert_eq!(
        played("R U"),
        (turned(&[(Face::Right, Direction::CW), (Face::Up, Direction::CW)]), Ok(()))
    );
    assert_ne!(played("R U").0, played("U R").0);
}

#[test]
fn runs_of_spaces_separate_like_one() {
    assert_eq!(played("  R   U'  "), played("R U'"));
    assert_eq!(played(" R"), played("R"));
    assert_eq!(played("R "), played("R"));
}

#[test]
fn moves_before_an_error_stay_made() {
    let (cube, res) = played("R Q U");
    assert_eq!(res, Err(()));
    assert_eq!(cube, played("R").0);
    let (cube, res) = played("R U2 Fxx L");
    assert_eq!(res, Err(()));
    assert_eq!(cube, played("R U2").0);
}

#[test]
fn nothing_after_an_error_is_played() {
    assert_eq!(played("Q R").0, Cube::new());
    assert_eq!(played("R2' R").0, Cube::new());
}

#[test]
fn letter_outside_ascii_is_one_character() {
    assert_eq!(played("R\u{e9}"), played("R"));
    assert_eq!(played("\u{e9}"), (Cube::new(), Err(())));
    assert_eq!(played("R\u{e9}\u{e9}"), (Cube::new(), Err(())));
}

#[test]
fn sexy_move_has_order_six() {
    let mut cube = Cube::new();
    for n in 1..=6 {
        assert_eq!(cube.turns("R U R' U'"), Ok(()));
        assert_eq!(cube == Cube::new(), n == 6);
    }
}
