use rust_notes::ownership::{
    chapter04, chapter04_borrows, chapter04_borrows_as_mutable, chapter04_gives_ownership,
    chapter04_takes_and_gives_back,
};

#[test]
fn walk_moves_and_clones() {
    let shown = chapter04();
    assert_eq!(shown.stack_string, "foo");
    assert_eq!(shown.heap_string2, "bar baz");
    assert_eq!(shown.heap_string3, "bar baz");
    assert_eq!(shown.x, 1);
}

#[test]
fn walk_passes_a_string_through_functions() {
    let shown = chapter04();
    assert_eq!(shown.t, "hello");
    assert_eq!(shown.l, 5);
    assert_eq!(shown.m, "foo bar");
}

#[test]
fn walk_cuts_slices() {
    let shown = chapter04();
    assert_eq!(shown.slice1, "hello");
    assert_eq!(shown.slice2, "hello");
    assert_eq!(shown.slice3, "world");
}

#[test]
fn gives_ownership_of_hello() {
    assert_eq!(chapter04_gives_ownership(), "hello");
}

#[test]
fn takes_and_gives_back_the_same_text() {
    assert_eq!(chapter04_takes_and_gives_back(String::from("hello")), "hello");
    assert_eq!(chapter04_takes_and_gives_back(String::new()), "");
    assert_eq!(chapter04_takes_and_gives_back(String::from("gr\u{fc}\u{df}e")), "gr\u{fc}\u{df}e");
}

#[test]
fn takes_and_gives_back_the_same_allocation() {
    let s = String::from("hello");
    let before = s.as_ptr();
    let t = chapter04_takes_and_gives_back(s);
    assert_eq!(t.as_ptr(), before);
}

#[test]
fn borrows_counts_ascii_characters() {
    assert_eq!(chapter04_borrows(&String::from("hello")), 5);
    assert_eq!(chapter04_borrows(&String::from("hello world")), 11);
}

#[test]
fn borrows_of_empty_is_zero() {
    assert_eq!(chapter04_borrows(&String::new()), 0);
}

#[test]
fn borrows_counts_bytes_not_characters() {
    // two bytes, three bytes and four bytes for one character
    assert_eq!(chapter04_borrows(&String::from("\u{e9}")), 2);
    assert_eq!(chapter04_borrows(&String::from("\u{20ac}")), 3);
    assert_eq!(chapter04_borrows(&String::from("\u{1f600}")), 4);
    assert_eq!(chapter04_borrows(&String::from("h\u{e9}llo")), 6);
}

#[test]
fn borrows_leaves_the_string_with_the_caller() {
    let t = String::from("hello");
    let l = chapter04_borrows(&t);
    assert_eq!(l, t.len());
    assert_eq!(t, "hello");
}

#[test]
fn borrows_as_mutable_appends_bar() {
    let mut m = String::from("foo");
    chapter04_borrows_as_mutable(&mut m);
    assert_eq!(m, "foo bar");
}

#[test]
fn borrows_as_mutable_on_empty() {
    let mut m = String::new();
    chapter04_borrows_as_mutable(&mut m);
    assert_eq!(m, " bar");
}

#[test]
fn borrows_as_mutable_twice() {
    let mut m = String::from("\u{e9}");
    chapter04_borrows_as_mutable(&mut m);
    chapter04_borrows_as_mutable(&mut m);
    assert_eq!(m, "\u{e9} bar bar");
}
