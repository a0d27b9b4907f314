use rubik::cube::{Color, CubeFace, Direction, Face};
use rubik::linalg::{Matrix, Vector};

const FACES: [Face; 6] = [Face::Front, Face::Back, Face::Left, Face::Right, Face::Up, Face::Down];

#[test]
fn face_directions_are_the_six_unit_vectors() {
    assert_eq!(Face::Front.direction(), Vector::new(0, -1, 0));
    assert_eq!(Face::Back.direction(), Vector::new(0, 1, 0));
    assert_eq!(Face::Left.direction(), Vector::new(-1, 0, 0));
    assert_eq!(Face::Right.direction(), Vector::new(1, 0, 0));
    assert_eq!(Face::Up.direction(), Vector::new(0, 0, 1));
    assert_eq!(Face::Down.direction(), Vector::new(0, 0, -1));
}

#[test]
fn from_direction_inverts_direction() {
    for f in FACES {
        assert_eq!(Face::from_direction(&f.direction()), Some(f));
    }
}

#[test]
fn from_direction_finds_nothing_for_other_vectors() {
    assert_eq!(Face::from_direction(&Vector::new(0, 0, 0)), None);
    assert_eq!(Face::from_direction(&Vector::new(1, 1, 0)), None);
    assert_eq!(Face::from_direction(&Vector::new(0, 2, 0)), None);
    assert_eq!(Face::from_direction(&Vector::new(0, 0, -2)), None);
    assert_eq!(Face::from_direction(&Vector::new(1, 0, 1)), None);
    assert_eq!(Face::from_direction(&Vector::new(-1, -1, -1)), None);
}

#[test]
fn initial_colors_of_the_faces() {
    assert_eq!(Face::Front.initial_color(), Color::Green);
    assert_eq!(Face::Back.initial_color(), Color::Blue);
    assert_eq!(Face::Left.initial_color(), Color::Orange);
    assert_eq!(Face::Right.initial_color(), Color::Red);
    assert_eq!(Face::Up.initial_color(), Color::White);
    assert_eq!(Face::Down.initial_color(), Color::Yellow);
}

#[test]
fn iter_lists_every_face_once() {
    assert_eq!(Face::iter(), FACES);
}

#[test]
fn rotation_matrices_of_the_faces() {
    let cw = Direction::CW;
    let ccw = Direction::CCW;
    assert_eq!(Face::Front.rotation_matrix(cw), Matrix::rotation_y(false));
    assert_eq!(Face::Front.rotation_matrix(ccw), Matrix::rotation_y(true));
    assert_eq!(Face::Back.rotation_matrix(cw), Matrix::rotation_y(true));
    assert_eq!(Face::Back.rotation_matrix(ccw), Matrix::rotation_y(false));
    assert_eq!(Face::Left.rotation_matrix(cw), Matrix::rotation_x(false));
    assert_eq!(Face::Left.rotation_matrix(ccw), Matrix::rotation_x(true));
    assert_eq!(Face::Right.rotation_matrix(cw), Matrix::rotation_x(true));
    assert_eq!(Face::Right.rotation_matrix(ccw), Matrix::rotation_x(false));
    assert_eq!(Face::Down.rotation_matrix(cw), Matrix::rotation_z(false));
    assert_eq!(Face::Down.rotation_matrix(ccw), Matrix::rotation_z(true));
    assert_eq!(Face::Up.rotation_matrix(cw), Matrix::rotation_z(true));
    assert_eq!(Face::Up.rotation_matrix(ccw), Matrix::rotation_z(false));
}

#[test]
fn rotation_matrix_fixes_the_normal_of_its_face() {
    for f in FACES {
        for d in [Direction::CW, Direction::CCW] {
            assert_eq!(f.rotation_matrix(d).mul_vec(&f.direction()), f.direction());
        }
    }
}

#[test]
fn rotation_matrix_visits_the_four_corners_in_turning_order() {
    // The front face seen from outside: x grows to the right, z grows upward.
    let rot = Face::Front.rotation_matrix(Direction::CW);
    let mut corner = Vector::new(-1, -1, 1);
    corner = rot.mul_vec(&corner);
    assert_eq!(corner, Vector::new(1, -1, 1));
    corner = rot.mul_vec(&corner);
    assert_eq!(corner, Vector::new(1, -1, -1));
    corner = rot.mul_vec(&corner);
    assert_eq!(corner, Vector::new(-1, -1, -1));
    corner = rot.mul_vec(&corner);
    assert_eq!(corner, Vector::new(-1, -1, 1));
}

#[test]
fn edge_offsets_of_the_faces() {
    assert_eq!(Face::Front.edge_orth(), Vector::new(0, 0, 1));
    assert_eq!(Face::Back.edge_orth(), Vector::new(0, 0, 1));
    assert_eq!(Face::Left.edge_orth(), Vector::new(0, 0, 1));
    assert_eq!(Face::Right.edge_orth(), Vector::new(0, 0, 1));
    assert_eq!(Face::Up.edge_orth(), Vector::new(0, 1, 0));
    assert_eq!(Face::Down.edge_orth(), Vector::new(0, -1, 0));
}

#[test]
fn corner_offsets_of_the_faces() {
    assert_eq!(Face::Front.corner_orth(), Vector::new(-1, 0, 1));
    assert_eq!(Face::Right.corner_orth(), Vector::new(0, -1, 1));
    assert_eq!(Face::Left.corner_orth(), Vector::new(0, 1, 1));
    assert_eq!(Face::Back.corner_orth(), Vector::new(1, 0, 1));
    assert_eq!(Face::Up.corner_orth(), Vector::new(-1, 1, 0));
    assert_eq!(Face::Down.corner_orth(), Vector::new(-1, -1, 0));
}

#[test]
fn offsets_lie_in_the_plane_of_the_face() {
    for f in FACES {
        assert_eq!(f.edge_orth().dot(&f.direction()), 0);
        assert_eq!(f.corner_orth().dot(&f.direction()), 0);
    }
}

#[test]
fn not_reverses_the_direction() {
    assert_eq!(!Direction::CW, Direction::CCW);
    assert_eq!(!Direction::CCW, Direction::CW);
}

#[test]
fn short_names_of_the_colors() {
    assert_eq!(Color::Yellow.short(), "y");
    assert_eq!(Color::Red.short(), "r");
    assert_eq!(Color::Blue.short(), "b");
    assert_eq!(Color::Green.short(), "g");
    assert_eq!(Color::White.short(), "w");
    assert_eq!(Color::Orange.short(), "o");
}

#[test]
fn cube_face_starts_white_and_takes_colors() {
    let mut cf = CubeFace::white();
    for row in 0..3 {
        for col in 0..3 {
            assert_eq!(cf.get(col, row), Color::White);
        }
    }
    cf.set((2, 1), Color::Red);
    cf.set((0, 2), Color::Blue);
    for row in 0..3 {
        for col in 0..3 {
            let expected = match (col, row) {
                (2, 1) => Color::Red,
                (0, 2) => Color::Blue,
                _ => Color::White,
            };
            assert_eq!(cf.get(col, row), expected);
            assert_eq!(cf[(col, row)], expected);
        }
    }
}
