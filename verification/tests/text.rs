use rubik::linalg::{Matrix, Vector};
use rubik::text::push_decimal;

fn decimal(i: i32) -> String {
    let mut s = String::new();
    push_decimal(&mut s, i);
    s
}

#[test]
fn decimal_notation_of_small_numbers() {
    assert_eq!(decimal(0), "0");
    assert_eq!(decimal(7), "7");
    assert_eq!(decimal(-7), "-7");
    assert_eq!(decimal(9), "9");
    assert_eq!(decimal(10), "10");
    assert_eq!(decimal(-10), "-10");
}

#[test]
fn decimal_notation_keeps_inner_zeros() {
    assert_eq!(decimal(100), "100");
    assert_eq!(decimal(1002003), "1002003");
    assert_eq!(decimal(-90), "-90");
}

#[test]
fn decimal_notation_at_the_limits() {
    assert_eq!(decimal(i32::MAX), "2147483647");
    assert_eq!(decimal(i32::MIN), "-2147483648");
}

#[test]
fn decimal_notation_agrees_with_the_standard_library() {
    let mut i: i32 = -1_000_000;
    while i <= 1_000_000 {
        assert_eq!(decimal(i), i.to_string());
        i += 997;
    }
}

#[test]
fn push_decimal_appends() {
    let mut s = String::from("x = ");
    push_decimal(&mut s, -42);
    push_decimal(&mut s, 5);
    assert_eq!(s, "x = -425");
}

#[test]
fn vector_as_text() {
    assert_eq!(Vector::new(1, 0, -1).to_text(), "[1, 0, -1]");
    assert_eq!(Vector::zeros().to_text(), "[0, 0, 0]");
    assert_eq!(Vector::new(-12, 345, 6789).to_text(), "[-12, 345, 6789]");
}

#[test]
fn matrix_as_text() {
    assert_eq!(Matrix::diag().to_text(), "|1, 0, 0|\n|0, 1, 0|\n|0, 0, 1|");
    assert_eq!(Matrix::rotation_x(true).to_text(), "|1, 0, 0|\n|0, 0, 1|\n|0, -1, 0|");
    let mut m = Matrix::zeros();
    m.set(2, 3, -25);
    m.set(3, 1, 100);
    assert_eq!(m.to_text(), "|0, 0, 0|\n|0, 0, -25|\n|100, 0, 0|");
}
