//! Control flow: `if`, `loop`, `while` and `for`.

use vstd::prelude::*;

verus! {

/// What the walk through the control-flow constructs arrives at.
pub struct ControlFlow {
    /// The text of the arm that the first `if` takes.
    pub arm: &'static str,
    /// The value of an `if` that is used as an expression.
    pub five: &'static str,
    /// The counter as it stood when the second `loop` was left.
    pub y: i32,
    /// The counter after the `while` loop.
    pub x: i32,
    /// The items of a fixed array, in the order in which `for` visits them.
    pub elements: Vec<&'static str>,
    /// The numbers that `for` takes from a reversed range.
    pub countdown: Vec<i32>,
}

/// Runs a counter through each of the control-flow constructs.
///
/// The counter starts at 1. The first `loop` is left at once, the second
/// raises the counter until it is 2, and the `while` loop goes on to 3. The
/// `for` loops visit the array from its first item to its last, and the range
/// `1..10` backwards, from 9 down to 1.
pub fn chapter03_section05() -> (shown: ControlFlow)
    ensures
        shown.arm@ == "x > 0"@,
        shown.five@ == "not five"@,
        shown.y == 2,
        shown.x == 3,
        shown.elements@.len() == 3,
        shown.elements@[0]@ == "one"@,
        shown.elements@[1]@ == "two"@,
        shown.elements@[2]@ == "three"@,
        shown.countdown@ == Seq::new(9, |i: int| (9 - i) as i32),
{
    // A condition takes no brackets, and it has to be a `bool`.
    let mut x: i32 = 1;
    let arm: &'static str = if x > 0 {
        "x > 0"
    } else {
        "x !> 0"
    };

    // `if` is an expression: both blocks must have the same type.
    let five: &'static str = if x == 5 {
        "five"
    } else {
        "not five"
    };

    // There is no `do ... while`, but there is `loop`.
    loop
        invariant
            x == 1,
        decreases 0int,
    {
        if x > 0 {
            break;
        }
    }

    let y: i32;
    loop
        invariant_except_break
            x == 1,
        ensures
            x == 2,
            y == x,
        decreases 2 - x,
    {
        x += 1;

        if x == 2 {
            y = x;
            break;
        }
    }

    while x < 3
        invariant
            2 <= x <= 3,
        decreases 3 - x,
    {
        x += 1;
    }

    let s: [&'static str; 3] = ["one", "two", "three"];
    let mut elements: Vec<&'static str> = Vec::new();

    for e in it: s.iter()
        invariant
            elements@.len() == it.index(),
            forall|i: int| 0 <= i < elements@.len() ==> elements@[i] == s@[i],
    {
        elements.push(*e);
    }

    // A `for` loop over a range is the idiomatic way to count.
    let mut countdown: Vec<i32> = Vec::new();

    for n in it: (1..10i32).rev()
        invariant
            countdown@.len() == it.index(),
            it.seq().len() == 9,
            forall|i: int| 0 <= i < 9 ==> it.seq()[i] == 9 - i,
            forall|i: int| 0 <= i < countdown@.len() ==> countdown@[i] == 9 - i,
    {
        countdown.push(n);
    }

    ControlFlow { arm, five, y, x, elements, countdown }
}

} // verus!
