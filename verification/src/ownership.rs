//! Ownership, borrowing and string slices.

use vstd::prelude::*;
use vstd::string::*;
use vstd::utf8::*;

verus! {

/// What the walk through ownership arrives at.
pub struct Ownership {
    /// A string literal: immutable text that is part of the program.
    pub stack_string: &'static str,
    /// A `String` that was extended on the heap and then moved into a new
    /// binding.
    pub heap_string2: String,
    /// A clone of it: a second copy of the heap data.
    pub heap_string3: String,
    /// An integer, which is copied and not moved when it is passed on.
    pub x: i32,
    /// A `String` that was moved out of one function, into a second and out
    /// of it again.
    pub t: String,
    /// The length of `t`, taken through a shared reference.
    pub l: usize,
    /// A `String` that was extended through a mutable reference.
    pub m: String,
    /// Slices of the text `hello world`: from the start with both ends
    /// given, from the start with the first end left out, and to the end with
    /// the last end left out.
    pub slice1: String,
    pub slice2: String,
    pub slice3: String,
}

/// Moves a `String` from binding to binding and through the functions below,
/// borrows it, and then cuts slices out of another.
///
/// A move leaves the old binding unusable, so that the heap data is freed
/// only once. A clone copies the heap data. References lend a value without
/// a move: at any time there is either one mutable reference to it or any
/// number of shared ones.
pub fn chapter04() -> (shown: Ownership)
    ensures
        shown.stack_string@ == "foo"@,
        shown.heap_string2@ == "bar baz"@,
        shown.heap_string3@ == "bar baz"@,
        shown.x == 1,
        shown.t@ == "hello"@,
        shown.l == 5,
        shown.m@ == "foo bar"@,
        shown.slice1@ == "hello"@,
        shown.slice2@ == "hello"@,
        shown.slice3@ == "world"@,
{
    let stack_string: &'static str = "foo";

    let mut heap_string = String::from_str("bar");
    heap_string.append(" baz");

    // From here on `heap_string` cannot be used: its value has moved.
    let heap_string2 = heap_string;

    let heap_string3 = heap_string2.clone();

    let x: i32 = 1;

    let s = chapter04_gives_ownership();
    let t = chapter04_takes_and_gives_back(s);
    let l = chapter04_borrows(&t);

    let mut m = String::from_str("foo");
    chapter04_borrows_as_mutable(&mut m);

    // A range picks a slice out of a string. It starts at zero, and its end
    // is one past the last character that is taken.
    let s = String::from_str("hello world");
    let end = chapter04_borrows(&s);

    proof {
        reveal_strlit("bar");
        reveal_strlit(" baz");
        reveal_strlit("bar baz");
        reveal_strlit("foo");
        reveal_strlit(" bar");
        reveal_strlit("foo bar");
        reveal_strlit("hello");
        reveal_strlit("world");
        reveal_strlit("hello world");
    }

    let slice1 = s.as_str().substring_ascii(0, 5).to_owned();
    let slice2 = s.as_str().substring_ascii(0, 5).to_owned();
    let slice3 = s.as_str().substring_ascii(6, end).to_owned();

    Ownership { stack_string, heap_string2, heap_string3, x, t, l, m, slice1, slice2, slice3 }
}

/// Builds a `String` on the heap and moves it out to the caller.
pub fn chapter04_gives_ownership() -> (s: String)
    ensures
        s@ == "hello"@,
{
    let s = String::from_str("hello");
    s
}

/// Takes a `String` over from the caller and moves it straight back.
pub fn chapter04_takes_and_gives_back(s: String) -> (r: String)
    ensures
        r == s,
{
    s
}

/// Reads the length of a borrowed `String`, which stays with the caller.
///
/// The length counts the bytes of the UTF-8 encoding. Text that is all ASCII
/// takes one byte for each character.
pub fn chapter04_borrows(s: &String) -> (n: usize)
    ensures
        n == encode_utf8(s@).len(),
        is_ascii_chars(s@) ==> n == s@.len(),
{
    proof {
        if is_ascii_chars(s@) {
            is_ascii_chars_encode_utf8(s@);
        }
    }
    s.as_str().as_bytes().len()
}

/// Extends a `String` in place through a mutable reference.
pub fn chapter04_borrows_as_mutable(s: &mut String)
    ensures
        final(s)@ == old(s)@ + " bar"@,
{
    s.append(" bar");
}

} // verus!
