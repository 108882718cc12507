//! Variables, mutability and the built-in data types.

use vstd::prelude::*;

verus! {

/// A constant is set to a constant expression, never to the result of a
/// call at run time.
pub const CONST_THING: u32 = 10_000;

/// What the walk through variables and data types arrives at.
pub struct Variables {
    /// A mutable variable after it was raised by one.
    pub x: i32,
    /// The binding that shadows `x`: the same name, another type.
    pub shadow: &'static str,
    /// An integer whose literal carries its type.
    pub i: i8,
    pub b: bool,
    /// A `char` takes four bytes, also where it is ASCII.
    pub c: char,
    /// The two parts of a tuple, taken apart by a pattern.
    pub u: i32,
    pub v: bool,
    /// The first part of the same tuple, taken by its position.
    pub y: i32,
    /// An array with its type and length written out.
    pub a_prime: [i32; 5],
    /// An array that repeats one value.
    pub d: [i32; 5],
    /// The first item of an array.
    pub e: i32,
}

/// Declares variables of the scalar and compound types and reads them back.
///
/// Variables are immutable unless declared with `mut`. A second `let` with
/// the same name shadows the first and may change the type. A tuple groups
/// values of different types; an array holds a fixed number of values of one
/// type.
pub fn chapter03_section02() -> (shown: Variables)
    ensures
        shown.x == 6,
        shown.shadow@ == "six"@,
        shown.i == 127,
        shown.b == false,
        shown.c == 'z',
        shown.u == 1,
        shown.v == false,
        shown.y == 1,
        shown.a_prime@ == seq![1i32, 2i32, 3i32, 4i32, 5i32],
        shown.d@ == seq![3i32, 3i32, 3i32, 3i32, 3i32],
        shown.e == 1,
{
    let mut x: i32 = 5;
    x += 1;
    let first = x;

    let x: &'static str = "six";

    // `i32` is the default for an integer. A literal can carry another type.
    let i: i8 = 127i8;
    let b = false;
    let c = 'z';

    let t: (i32, bool) = (1, false);
    let (u, v) = t;
    let y: i32 = t.0;

    // The type and the length of an array can be left to the compiler.
    let a = [1i32, 2i32, 3i32, 4i32, 5i32];
    let a_prime: [i32; 5] = [1, 2, 3, 4, 5];
    let d: [i32; 5] = [3; 5];
    // An index past the end is refused when the program is built, where
    // that can be seen, and stops the program where it cannot.
    let e: i32 = a[0];

    Variables { x: first, shadow: x, i, b, c, u, v, y, a_prime, d, e }
}

} // verus!
