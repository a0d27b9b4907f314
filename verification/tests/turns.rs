use rubik::cube::{Color, Cube, Direction, Face, Piece};
use rubik::linalg::Vector;

const FACES: [Face; 6] = [Face::Front, Face::Back, Face::Left, Face::Right, Face::Up, Face::Down];
const SENSES: [Direction; 2] = [Direction::CW, Direction::CCW];
const SCRAMBLE: &str = "F D L2 B2 D' B U2 R' F2 L B' R' F' L2 U R2 D' F' D F D' F D2 L2 U'";

/// The colours of the faces Up, Left, Front, Right, Back and Down, each row
/// by row.
fn stickers(cube: &Cube) -> [String; 6] {
    [Face::Up, Face::Left, Face::Front, Face::Right, Face::Back, Face::Down].map(|f| {
        let cf = cube.face(f);
        let mut s = String::new();
        for row in 0..3 {
            for col in 0..3 {
                s.push_str(cf.get(col, row).short());
            }
        }
        s
    })
}

fn scrambled() -> Cube {
    let mut cube = Cube::new();
    assert_eq!(cube.turns(SCRAMBLE), Ok(()));
    cube
}

fn every_piece_sits_at_its_coordinate(cube: &Cube) -> bool {
    for x in -1..=1 {
        for y in -1..=1 {
            for z in -1..=1 {
                let point = Vector::new(x, y, z);
                if cube.piece(&point).coordinate() != point {
                    return false;
                }
            }
        }
    }
    true
}

#[test]
fn solved_faces_show_their_own_color() {
    assert_eq!(
        stickers(&Cube::new()),
        ["wwwwwwwww", "ooooooooo", "ggggggggg", "rrrrrrrrr", "bbbbbbbbb", "yyyyyyyyy"]
    );
}

#[test]
fn quarter_turns_of_every_face() {
    let cases = [
        (Face::Right, Direction::CW, ["wwgwwgwwg", "ooooooooo", "ggyggyggy", "rrrrrrrrr", "wbbwbbwbb", "yybyybyyb"]),
        (Face::Right, Direction::CCW, ["wwbwwbwwb", "ooooooooo", "ggwggwggw", "rrrrrrrrr", "ybbybbybb", "yygyygyyg"]),
        (Face::Left, Direction::CW, ["bwwbwwbww", "ooooooooo", "wggwggwgg", "rrrrrrrrr", "bbybbybby", "gyygyygyy"]),
        (Face::Left, Direction::CCW, ["gwwgwwgww", "ooooooooo", "yggyggygg", "rrrrrrrrr", "bbwbbwbbw", "byybyybyy"]),
        (Face::Up, Direction::CW, ["wwwwwwwww", "gggoooooo", "rrrgggggg", "bbbrrrrrr", "ooobbbbbb", "yyyyyyyyy"]),
        (Face::Up, Direction::CCW, ["wwwwwwwww", "bbboooooo", "ooogggggg", "gggrrrrrr", "rrrbbbbbb", "yyyyyyyyy"]),
        (Face::Down, Direction::CW, ["wwwwwwwww", "oooooobbb", "ggggggooo", "rrrrrrggg", "bbbbbbrrr", "yyyyyyyyy"]),
        (Face::Down, Direction::CCW, ["wwwwwwwww", "ooooooggg", "ggggggrrr", "rrrrrrbbb", "bbbbbbooo", "yyyyyyyyy"]),
        (Face::Back, Direction::CW, ["rrrwwwwww", "woowoowoo", "ggggggggg", "rryrryrry", "bbbbbbbbb", "yyyyyyooo"]),
        (Face::Back, Direction::CCW, ["ooowwwwww", "yooyooyoo", "ggggggggg", "rrwrrwrrw", "bbbbbbbbb", "yyyyyyrrr"]),
        (Face::Front, Direction::CW, ["wwwwwwooo", "ooyooyooy", "ggggggggg", "wrrwrrwrr", "bbbbbbbbb", "rrryyyyyy"]),
        (Face::Front, Direction::CCW, ["wwwwwwrrr", "oowoowoow", "ggggggggg", "yrryrryrr", "bbbbbbbbb", "oooyyyyyy"]),
    ];
    for (face, dir, expected) in cases {
        let mut cube = Cube::new();
        cube.turn(face, dir);
        assert_eq!(stickers(&cube), expected);
    }
}

#[test]
fn turn_moves_and_turns_the_pieces_round_the_face() {
    let mut cube = Cube::new();
    cube.turn(Face::Right, Direction::CW);
    assert_eq!(
        *cube.piece(&Vector::new(1, -1, 1)),
        Piece::Corner(
            [Vector::new(1, 0, 0), Vector::new(0, 0, 1), Vector::new(0, -1, 0)],
            [Color::Red, Color::Green, Color::Yellow],
        )
    );
    assert_eq!(
        *cube.piece(&Vector::new(1, 0, 1)),
        Piece::Edge([Vector::new(1, 0, 0), Vector::new(0, 0, 1)], [Color::Red, Color::Green])
    );
    assert_eq!(
        *cube.piece(&Vector::new(1, 1, -1)),
        Piece::Corner(
            [Vector::new(1, 0, 0), Vector::new(0, 0, -1), Vector::new(0, 1, 0)],
            [Color::Red, Color::Blue, Color::White],
        )
    );
    assert_eq!(
        *cube.piece(&Vector::new(1, 0, 0)),
        Piece::Center(Vector::new(1, 0, 0), Color::Red)
    );
    assert_eq!(
        *cube.piece(&Vector::new(0, -1, 1)),
        Piece::Edge([Vector::new(0, -1, 0), Vector::new(0, 0, 1)], [Color::Green, Color::White])
    );
}

#[test]
fn turn_leaves_the_other_layers_alone() {
    let before = scrambled();
    for face in FACES {
        for dir in SENSES {
            let mut cube = before.clone();
            cube.turn(face, dir);
            let n = face.direction();
            let mut moved = 0;
            for x in -1..=1 {
                for y in -1..=1 {
                    for z in -1..=1 {
                        let point = Vector::new(x, y, z);
                        if point.dot(&n) != 1 || point == n {
                            assert_eq!(cube.piece(&point), before.piece(&point));
                        } else {
                            assert_ne!(cube.piece(&point), before.piece(&point));
                            moved += 1;
                        }
                    }
                }
            }
            assert_eq!(moved, 8);
        }
    }
}

#[test]
fn four_quarter_turns_restore_the_pieces() {
    for start in [Cube::new(), scrambled()] {
        for face in FACES {
            for dir in SENSES {
                let mut cube = start.clone();
                for n in 1..=4 {
                    cube.turn(face, dir);
                    assert_eq!(cube == start, n == 4);
                }
            }
        }
    }
}

#[test]
fn turn_and_reverse_turn_restore_the_pieces() {
    for start in [Cube::new(), scrambled()] {
        for face in FACES {
            for dir in SENSES {
                let mut cube = start.clone();
                cube.turn(face, dir);
                assert_ne!(cube, start);
                cube.turn(face, !dir);
                assert_eq!(cube, start);
            }
        }
    }
}

#[test]
fn pieces_stay_in_the_slots_of_their_coordinates() {
    let mut cube = Cube::new();
    assert!(every_piece_sits_at_its_coordinate(&cube));
    for round in 0..5 {
        for (k, face) in FACES.into_iter().enumerate() {
            let dir = SENSES[(k + round) % 2];
            cube.turn(face, dir);
            assert!(every_piece_sits_at_its_coordinate(&cube));
        }
    }
    assert!(every_piece_sits_at_its_coordinate(&scrambled()));
}

#[test]
fn middle_piece_never_changes() {
    let origin = Vector::new(0, 0, 0);
    let mut cube = Cube::new();
    for face in FACES {
        for dir in SENSES {
            cube.turn(face, dir);
            cube.turn(face, dir);
            cube.turn(face, !dir);
            assert_eq!(*cube.piece(&origin), Piece::Middle);
        }
    }
    assert_eq!(*scrambled().piece(&origin), Piece::Middle);
}

#[test]
fn centers_never_leave_their_faces() {
    let cube = scrambled();
    for face in FACES {
        assert_eq!(
            *cube.piece(&face.direction()),
            Piece::Center(face.direction(), face.initial_color())
        );
        assert_eq!(cube.face(face).get(1, 1), face.initial_color());
    }
}

#[test]
fn four_right_turns_show_the_solved_faces() {
    let mut cube = Cube::new();
    assert_eq!(cube.turns("R R R R"), Ok(()));
    let solved = Cube::new();
    for face in [Face::Up, Face::Front, Face::Right] {
        assert_eq!(cube.face(face), solved.face(face));
    }
    assert_eq!(cube.render_ascii(), solved.render_ascii());
    assert_eq!(cube, solved);
}

#[test]
fn scramble_gives_the_recorded_faces() {
    assert_eq!(
        stickers(&scrambled()),
        ["obbywrwbw", "gbgrorboy", "rwrggobyr", "bwrgryyyg", "yoygbbogo", "orgwyowww"]
    );
}

#[test]
fn scramble_gives_the_same_faces_every_time() {
    assert_eq!(scrambled(), scrambled());
    assert_eq!(scrambled().render_ascii(), scrambled().render_ascii());
}

#[test]
fn face_reads_the_grid_from_the_top_left() {
    let cube = scrambled();
    let up = cube.face(Face::Up);
    assert_eq!(up.get(0, 0), Color::Orange);
    assert_eq!(up.get(1, 0), Color::Blue);
    assert_eq!(up.get(2, 0), Color::Blue);
    assert_eq!(up.get(0, 1), Color::Yellow);
    assert_eq!(up.get(1, 1), Color::White);
    assert_eq!(up.get(2, 1), Color::Red);
    assert_eq!(up.get(0, 2), Color::White);
    assert_eq!(up.get(1, 2), Color::Blue);
    assert_eq!(up.get(2, 2), Color::White);
    assert_eq!(up[(2, 1)], Color::Red);
}

#[test]
fn face_shows_the_sticker_that_faces_outward() {
    let cube = scrambled();
    for face in FACES {
        let cf = cube.face(face);
        let n = face.direction();
        // The top left cell lies at the corner offset from the centre.
        let mut corner = face.corner_orth();
        corner.add_vec(&n);
        assert_eq!(Some(cf.get(0, 0)), cube.piece(&corner).color(&n));
        // The top middle cell lies at the edge offset from the centre.
        let mut edge = face.edge_orth();
        edge.add_vec(&n);
        assert_eq!(Some(cf.get(1, 0)), cube.piece(&edge).color(&n));
    }
}
