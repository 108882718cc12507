use rust_notes::variables::{chapter03_section02, CONST_THING};

#[test]
fn mutable_variable_is_raised_by_one() {
    assert_eq!(chapter03_section02().x, 6);
}

#[test]
fn shadowing_changes_the_type() {
    assert_eq!(chapter03_section02().shadow, "six");
}

#[test]
fn constant_has_its_value() {
    assert_eq!(CONST_THING, 10_000);
}

#[test]
fn scalars_are_as_written() {
    let shown = chapter03_section02();
    assert_eq!(shown.i, 127);
    assert_eq!(shown.i, i8::MAX);
    assert!(!shown.b);
    assert_eq!(shown.c, 'z');
}

#[test]
fn tuple_is_taken_apart() {
    let shown = chapter03_section02();
    assert_eq!(shown.u, 1);
    assert!(!shown.v);
    assert_eq!(shown.y, 1);
}

#[test]
fn arrays_hold_what_was_written() {
    let shown = chapter03_section02();
    assert_eq!(shown.a_prime, [1, 2, 3, 4, 5]);
    assert_eq!(shown.d, [3, 3, 3, 3, 3]);
    assert_eq!(shown.a_prime[4], 5);
    assert_eq!(shown.d[4], 3);
    assert_eq!(shown.e, 1);
}
