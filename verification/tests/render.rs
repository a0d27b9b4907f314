use rubik::cube::Cube;

#[test]
fn solved_cube_as_text() {
    let expected = "        w w w
        w w w
        w w w
        -----
o o o | g g g | r r r | b b b
o o o | g g g | r r r | b b b
o o o | g g g | r r r | b b b
        -----
        y y y
        y y y
        y y y
";
    assert_eq!(Cube::new().render_ascii(), expected);
}

#[test]
fn scrambled_cube_as_text() {
    let mut cube = Cube::new();
    let res = cube.turns("F D L2 B2 D' B U2 R' F2 L B' R' F' L2 U R2 D' F' D F D' F D2 L2 U'");
    assert_eq!(res, Ok(()));
    let expected = "        o b b
        y w r
        w b w
        -----
g b g | r w r | b w r | y o y
r o r | g g o | g r y | g b b
b o y | b y r | y y g | o g o
        -----
        o r g
        w y o
        w w w
";
    assert_eq!(cube.render_ascii(), expected);
}

#[test]
fn text_after_one_turn() {
    let mut cube = Cube::new();
    assert_eq!(cube.turns("F"), Ok(()));
    let expected = "        w w w
        w w w
        o o o
        -----
o o y | g g g | w r r | b b b
o o y | g g g | w r r | b b b
o o y | g g g | w r r | b b b
        -----
        r r r
        y y y
        y y y
";
    assert_eq!(cube.render_ascii(), expected);
}
