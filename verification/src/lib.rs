//! A small family of linked-list containers, each with a different
//! ownership discipline over its nodes:
//!
//! * [`exclusive`]: a LIFO stack whose nodes are each exclusively owned
//!   by their predecessor.
//! * [`borrowing`]: the same stack extended with peeking and with
//!   consuming, borrowing, and mutably borrowing traversal.
//! * [`persistent`]: an immutable list whose values share their tails
//!   structurally.
//! * [`deque`]: a double-ended queue, accessible from both ends.
//!
//! Every container is modelled by a sequence of its values, front first,
//! and every operation carries a contract over that model.

pub mod borrowing;
pub mod deque;
pub mod exclusive;
pub mod persistent;

use vstd::prelude::*;

verus! {

/// The stack model: pushing a value puts it in front of the rest.
pub open spec fn pushed<T>(stack: Seq<T>, value: T) -> Seq<T> {
    seq![value] + stack
}

/// Pushing the values of `values` in order, starting from `stack`.
pub open spec fn pushed_all<T>(stack: Seq<T>, values: Seq<T>) -> Seq<T>
    decreases values.len(),
{
    if values.len() == 0 {
        stack
    } else {
        pushed_all(pushed(stack, values[0]), values.skip(1))
    }
}

/// LIFO law: after pushing `v1 .. vn` in order, the stack holds
/// `vn .. v1`, so popping front to back yields the values newest first,
/// and one further pop finds the stack as it began.
pub proof fn lemma_lifo_order<T>(stack: Seq<T>, values: Seq<T>)
    ensures
        pushed_all(stack, values) == values.reverse() + stack,
    decreases values.len(),
{
    if values.len() == 0 {
        assert(pushed_all(stack, values) =~= values.reverse() + stack);
    } else {
        lemma_lifo_order(pushed(stack, values[0]), values.skip(1));
        assert(values.skip(1).reverse() + (seq![values[0]] + stack)
            =~= values.reverse() + stack);
    }
}

/// Writing `w` through a borrow of the front value and then popping
/// yields `w`: the write is what the next pop observes.
pub proof fn lemma_write_front_then_pop<T>(stack: Seq<T>, w: T)
    requires
        stack.len() > 0,
    ensures
        stack.update(0, w)[0] == w,
        stack.update(0, w).skip(1) == stack.skip(1),
{
    assert(stack.update(0, w).skip(1) =~= stack.skip(1));
}

} // verus!
