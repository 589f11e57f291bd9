use spexia::util::{RectI, Vec2I};

#[test]
fn vectors_add_by_component() {
    assert_eq!(Vec2I(1, 2) + Vec2I(30, -40), Vec2I(31, -38));
    assert_eq!(Vec2I(i32::MAX, i32::MIN) + Vec2I(0, 0), Vec2I(i32::MAX, i32::MIN));
    assert_eq!(Vec2I(i32::MAX - 1, i32::MIN + 1) + Vec2I(1, -1), Vec2I(i32::MAX, i32::MIN));
}

#[test]
fn vectors_subtract_by_component() {
    assert_eq!(Vec2I(1, 2) - Vec2I(30, -40), Vec2I(-29, 42));
    assert_eq!(Vec2I(5, 5) - Vec2I(5, 5), Vec2I(0, 0));
    assert_eq!(Vec2I(0, 0) - Vec2I(i32::MAX, -i32::MAX), Vec2I(-i32::MAX, i32::MAX));
}

#[test]
fn vectors_scale() {
    assert_eq!(Vec2I(3, -4) * 5, Vec2I(15, -20));
    assert_eq!(Vec2I(3, -4) * 0, Vec2I(0, 0));
    assert_eq!(Vec2I(3, -4) * -1, Vec2I(-3, 4));
}

#[test]
fn vectors_negate() {
    assert_eq!(-Vec2I(3, -4), Vec2I(-3, 4));
    assert_eq!(-Vec2I(0, i32::MAX), Vec2I(0, -i32::MAX));
}

#[test]
fn vectors_divide_toward_zero() {
    assert_eq!(Vec2I(7, -7) / 2, Vec2I(3, -3));
    assert_eq!(Vec2I(7, -7) / -2, Vec2I(-3, 3));
    assert_eq!(Vec2I(1024, 768) / 2, Vec2I(512, 384));
    assert_eq!(Vec2I(1, -1) / 2, Vec2I(0, 0));
    assert_eq!(Vec2I(i32::MIN, i32::MAX) / 1, Vec2I(i32::MIN, i32::MAX));
    assert_eq!(Vec2I(i32::MAX, -i32::MAX) / -1, Vec2I(-i32::MAX, i32::MAX));
    assert_eq!(Vec2I(i32::MIN, i32::MAX) / i32::MIN, Vec2I(1, 0));
    assert_eq!(Vec2I(i32::MIN + 1, -1) / i32::MIN, Vec2I(0, 0));
    assert_eq!(Vec2I(i32::MIN, i32::MIN) / 2, Vec2I(-1073741824, -1073741824));
    assert_eq!(Vec2I(i32::MIN, i32::MIN) / -2, Vec2I(1073741824, 1073741824));
    assert_eq!(Vec2I(i32::MIN, 9) / i32::MAX, Vec2I(-1, 0));
}

#[test]
fn division_agrees_with_the_machine() {
    for a in [-9, -8, -1, 0, 1, 8, 9, i32::MAX, i32::MIN + 1] {
        for b in [-3, -2, -1, 1, 2, 3, i32::MAX, i32::MIN] {
            assert_eq!(Vec2I(a, -a) / b, Vec2I(a / b, -a / b));
        }
    }
}

#[test]
fn vector_from_pair() {
    assert_eq!(Vec2I::from((3, -4)), Vec2I(3, -4));
    let vector: Vec2I = (1024, 768).into();
    assert_eq!(vector, Vec2I(1024, 768));
}

#[test]
fn rectangles_compare_by_position_and_size() {
    let a = RectI { pos: Vec2I(0, 0), dim: Vec2I(4, 3) };
    let b = RectI { pos: Vec2I(0, 0), dim: Vec2I(4, 3) };
    let c = RectI { pos: Vec2I(1, 0), dim: Vec2I(4, 3) };
    assert_eq!(a, b);
    assert_ne!(a, c);
}
