//! Enums and pattern matching.

use vstd::prelude::*;
use vstd::string::*;

verus! {

/// A simple enum: a value is one of the variants and carries nothing else.
#[derive(Debug)]
pub enum Operation {
    Assign,
    Check,
}

/// Variants can carry a value, and each variant a value of a different type.
#[derive(Debug)]
pub enum OperationWithLabel {
    Assign(String),
    Check(u32),
}

/// What the walk through enums and patterns arrives at.
pub struct Matching {
    /// Two variants of the simple enum.
    pub op1: Operation,
    pub op2: Operation,
    /// Two variants that carry a value.
    pub op3: OperationWithLabel,
    pub op4: OperationWithLabel,
    /// An `Option` that holds a value, and one that holds none.
    pub a: Option<u32>,
    pub b: Option<u32>,
    /// The text of the arm that `op1` selects.
    pub arm: &'static str,
    /// `a` with its content, if any, raised by one.
    pub c: Option<u32>,
    pub c_is_some: bool,
    /// The word for a small odd number; `None` where the placeholder arm is
    /// the one that matches.
    pub word: Option<&'static str>,
    /// Whether `c` holds exactly 2.
    pub c_is_two: bool,
}

/// Builds values of both enums and of `Option`, and takes them apart again
/// with `match` and `if let`.
///
/// Only the first arm that matches is taken, a pattern may bind what the
/// variant carries, and `_` matches whatever the arms before it left over.
pub fn chapter06() -> (shown: Matching)
    ensures
        shown.op1 == Operation::Assign,
        shown.op2 == Operation::Check,
        shown.op3 matches OperationWithLabel::Assign(label) && label@ == "set"@,
        shown.op4 == OperationWithLabel::Check(100),
        shown.a == Some(1u32),
        shown.b == None::<u32>,
        shown.arm@ == "set"@,
        shown.c == Some(2u32),
        shown.c_is_some,
        shown.word is None,
        shown.c_is_two,
{
    let op1 = Operation::Assign;
    let op2 = Operation::Check;

    let op3 = OperationWithLabel::Assign(String::from_str("set"));
    let op4 = OperationWithLabel::Check(100);

    // `Some` and `None` are in scope without an import. With `None` the type
    // of the missing value has to be written out.
    let a: Option<u32> = Some(1);
    let b: Option<u32> = None;

    let arm: &'static str = match op1 {
        Operation::Assign => "set",
        Operation::Check => "check",
    };

    // Matches are exhaustive: leaving out the `None` arm would not compile.
    let c: Option<u32> = match a {
        None => None,
        Some(i) => Some(i + 1),
    };
    let c_is_some = c.is_some();

    let some_u8_value: u8 = 0u8;
    let word: Option<&'static str> = match some_u8_value {
        1 => Some("one"),
        3 => Some("three"),
        5 => Some("five"),
        7 => Some("seven"),
        _ => None,
    };

    // `if let` is a `match` that cares about one pattern only.
    let mut c_is_two = false;
    if let Some(2) = c {
        c_is_two = true;
    }

    Matching { op1, op2, op3, op4, a, b, arm, c, c_is_some, word, c_is_two }
}

} // verus!
