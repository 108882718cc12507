//! Functions, statements and expressions.

use vstd::prelude::*;

verus! {

/// Yields the value of a block expression, whatever the argument.
///
/// A statement performs an action and has no value. An expression has one:
/// a block is an expression whose value is that of its last line, written
/// without a semicolon. A function returns its last expression in the same
/// way. The inner `a` shadows the outer one only inside the block.
pub fn chapter03_section03(parameter: i32) -> (b: i32)
    ensures
        b == 2,
{
    let a: i32 = 0;

    let b: i32 = {
        let a: i32 = 1;
        a + 1
    };

    // The outer `a` is untouched by the block.
    assert(a == 0);

    b
}

} // verus!
