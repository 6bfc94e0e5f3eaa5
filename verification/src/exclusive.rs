//! A LIFO stack of integers over exclusively owned nodes.
//!
//! The stack owns its head node, and each node exclusively owns its
//! successor, so exactly one owning path leads from the stack to every
//! live node. The model of a stack is the sequence of its values, top
//! first. Tearing a long chain down is done iteratively by [`List::clear`],
//! which detaches one node at a time instead of recursing down the chain.

use vstd::prelude::*;

verus! {

/// A singly linked LIFO stack of `i32` values.
pub struct List {
    head: Link,
}

/// An owning link: either the end of the chain or the next node.
enum Link {
    Empty,
    More(Box<Node>),
}

struct Node {
    value: i32,
    next: Link,
}

/// The values hanging off a link, nearest first.
spec fn link_view(link: Link) -> Seq<i32>
    decreases link,
{
    match link {
        Link::Empty => Seq::empty(),
        Link::More(node) => seq![node.value] + link_view(node.next),
    }
}

/// Detaches the chain behind `link`, leaving the end of the chain there.
fn take_link(link: &mut Link) -> (taken: Link)
    ensures
        taken == *old(link),
        link_view(*final(link)) == Seq::<i32>::empty(),
{
    let mut taken = Link::Empty;
    core::mem::swap(&mut taken, link);
    taken
}

impl View for List {
    type V = Seq<i32>;

    /// The stack's values, top of the stack first.
    closed spec fn view(&self) -> Seq<i32> {
        link_view(self.head)
    }
}

impl List {
    /// An empty stack.
    pub fn new() -> (stack: Self)
        ensures
            stack@ == Seq::<i32>::empty(),
    {
        Self { head: Link::Empty }
    }

    /// Pushes `value` on top of the stack.
    pub fn push(&mut self, value: i32)
        ensures
            final(self)@ == crate::pushed(old(self)@, value),
    {
        let old_head = take_link(&mut self.head);
        let new_node = Box::new(Node {
            value,
            next: old_head,
        });

        self.head = Link::More(new_node);
    }

    /// Pops the top value, or returns `None` on an empty stack.
    pub fn pop(&mut self) -> (popped: Option<i32>)
        ensures
            old(self)@.len() == 0 ==> popped is None && final(self)@ == old(self)@,
            old(self)@.len() > 0 ==> popped == Some(old(self)@[0])
                && final(self)@ == old(self)@.skip(1),
    {
        match take_link(&mut self.head) {
            Link::Empty => None,
            Link::More(node) => {
                self.head = node.next;
                proof {
                    assert(link_view(self.head) =~= old(self)@.skip(1));
                }
                Some(node.value)
            }
        }
    }

    /// Empties the stack, detaching one node per loop step: the teardown
    /// never recurses down the chain, however long it is.
    pub fn clear(&mut self)
        ensures
            final(self)@ == Seq::<i32>::empty(),
    {
        let mut cur_link = take_link(&mut self.head);

        loop
            invariant
                self@ == Seq::<i32>::empty(),
            decreases link_view(cur_link).len(),
        {
            match cur_link {
                Link::More(node) => {
                    cur_link = node.next;
                }
                Link::Empty => {
                    break;
                }
            }
        }
    }
}

} // verus!
