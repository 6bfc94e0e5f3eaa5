//! A LIFO stack with borrowed access: peeking at the top value, and
//! traversal that consumes, borrows, or mutably borrows the values.
//!
//! The ownership discipline is that of [`crate::exclusive`]: one owning
//! link per node, head to tail. On top of it, [`List::peek`] and
//! [`List::peek_mut`] lend out the top value, and the three traversal
//! forms walk the chain front to back — [`IntoIter`] by popping,
//! [`Iter`] over shared borrows, and [`IterMut`] over exclusive borrows
//! surrendered one at a time as the cursor advances.

use vstd::prelude::*;

verus! {

/// A singly linked LIFO stack.
pub struct List<T> {
    head: Link<T>,
}

type Link<T> = Option<Box<Node<T>>>;

struct Node<T> {
    value: T,
    next: Link<T>,
}

/// The values hanging off a link, nearest first.
spec fn link_view<T>(link: Link<T>) -> Seq<T>
    decreases link,
{
    match link {
        Option::None => Seq::empty(),
        Option::Some(node) => seq![node.value] + link_view(node.next),
    }
}

impl<T> View for List<T> {
    type V = Seq<T>;

    /// The stack's values, top of the stack first.
    closed spec fn view(&self) -> Seq<T> {
        link_view(self.head)
    }
}

impl<T> List<T> {
    /// An empty stack.
    pub fn new() -> (stack: Self)
        ensures
            stack@ == Seq::<T>::empty(),
    {
        Self { head: None }
    }

    /// Pushes `value` on top of the stack.
    pub fn push(&mut self, value: T)
        ensures
            final(self)@ == crate::pushed(old(self)@, value),
    {
        let old_head = self.head.take();
        let new_node = Box::new(Node {
            value,
            next: old_head,
        });

        self.head = Some(new_node);
    }

    /// Pops the top value, or returns `None` on an empty stack.
    pub fn pop(&mut self) -> (popped: Option<T>)
        ensures
            old(self)@.len() == 0 ==> popped is None && final(self)@ == old(self)@,
            old(self)@.len() > 0 ==> (popped matches Some(v) && v == old(self)@[0]
                && final(self)@ == old(self)@.skip(1)),
    {
        match self.head.take() {
            None => None,
            Some(node) => {
                self.head = node.next;
                proof {
                    assert(link_view(self.head) =~= old(self)@.skip(1));
                }
                Some(node.value)
            }
        }
    }

    /// Borrows the top value, or returns `None` on an empty stack.
    pub fn peek(&self) -> (borrowed: Option<&T>)
        ensures
            self@.len() == 0 ==> borrowed is None,
            self@.len() > 0 ==> (borrowed matches Some(v) && *v == self@[0]),
    {
        match &self.head {
            Some(node) => Some(&node.value),
            None => None,
        }
    }

    /// Lends the top value out for writing: whatever the caller leaves in
    /// the borrow is what the stack holds on top afterwards.
    pub fn peek_mut(&mut self) -> (borrowed: Option<&mut T>)
        ensures
            old(self)@.len() == 0 ==> borrowed is None && final(self)@ == old(self)@,
            old(self)@.len() > 0 ==> match borrowed {
                Some(v) => *v == old(self)@[0]
                    && final(self)@ == old(self)@.update(0, *final(v)),
                None => false,
            },
    {
        match &mut self.head {
            Some(node) => Some(&mut node.value),
            None => None,
        }
    }

    /// Empties the stack, detaching one node per loop step: the teardown
    /// never recurses down the chain, however long it is.
    pub fn clear(&mut self)
        ensures
            final(self)@ == Seq::<T>::empty(),
    {
        let mut cur_link = self.head.take();

        loop
            invariant
                self@ == Seq::<T>::empty(),
            decreases link_view(cur_link).len(),
        {
            match cur_link {
                Some(mut node) => {
                    cur_link = node.next.take();
                }
                None => {
                    break;
                }
            }
        }
    }

    /// Hands the stack over to a consuming traversal, popping front to
    /// back.
    pub fn into_iter(self) -> (it: IntoIter<T>)
        ensures
            it@ == self@,
    {
        IntoIter(self)
    }

    /// A borrowing traversal over the values, front to back.
    pub fn iter(&self) -> (it: Iter<'_, T>)
        ensures
            it@ == self@,
    {
        Iter {
            next: match &self.head {
                Some(node) => Some(&**node),
                None => None,
            },
        }
    }

    /// A mutably borrowing traversal over the values, front to back. The
    /// cursor holds the not-yet-visited remainder of the chain and lends
    /// out one exclusive borrow at a time as it advances.
    pub fn iter_mut(&mut self) -> (it: IterMut<'_, T>)
        ensures
            it@ == old(self)@,
    {
        IterMut {
            next: match &mut self.head {
                Some(node) => Some(&mut **node),
                None => None,
            },
        }
    }
}

/// A consuming traversal: owns what is left of the stack and pops it.
pub struct IntoIter<T>(List<T>);

impl<T> View for IntoIter<T> {
    type V = Seq<T>;

    /// The values not yet yielded, next first.
    closed spec fn view(&self) -> Seq<T> {
        self.0@
    }
}

impl<T> IntoIter<T> {
    /// Yields the next remaining value, or `None` when the stack is
    /// drained.
    pub fn next(&mut self) -> (item: Option<T>)
        ensures
            old(self)@.len() == 0 ==> item is None && final(self)@ == old(self)@,
            old(self)@.len() > 0 ==> (item matches Some(v) && v == old(self)@[0]
                && final(self)@ == old(self)@.skip(1)),
    {
        self.0.pop()
    }
}

/// A borrowing traversal: holds the not-yet-visited remainder of the
/// chain as a shared borrow.
pub struct Iter<'a, T> {
    next: Option<&'a Node<T>>,
}

impl<'a, T> View for Iter<'a, T> {
    type V = Seq<T>;

    /// The values not yet yielded, next first.
    closed spec fn view(&self) -> Seq<T> {
        match self.next {
            Some(node) => seq![node.value] + link_view(node.next),
            None => Seq::empty(),
        }
    }
}

impl<'a, T> Iter<'a, T> {
    /// Yields a borrow of the next remaining value, or `None` when the
    /// traversal is done.
    pub fn next(&mut self) -> (item: Option<&'a T>)
        ensures
            old(self)@.len() == 0 ==> item is None && final(self)@ == old(self)@,
            old(self)@.len() > 0 ==> (item matches Some(v) && *v == old(self)@[0]
                && final(self)@ == old(self)@.skip(1)),
    {
        match self.next {
            Some(node) => {
                self.next = match &node.next {
                    Some(next_node) => Some(&**next_node),
                    None => None,
                };
                proof {
                    assert(self@ =~= old(self)@.skip(1));
                }
                Some(&node.value)
            }
            None => None,
        }
    }
}

/// A mutably borrowing traversal: holds the not-yet-visited remainder of
/// the chain as an exclusive borrow, and surrenders its claim on each
/// node as it yields that node's value.
pub struct IterMut<'a, T> {
    next: Option<&'a mut Node<T>>,
}

impl<'a, T> View for IterMut<'a, T> {
    type V = Seq<T>;

    /// The values not yet yielded, next first.
    closed spec fn view(&self) -> Seq<T> {
        match self.next {
            Some(node) => seq![node.value] + link_view(node.next),
            None => Seq::empty(),
        }
    }
}

impl<'a, T> IterMut<'a, T> {
    /// Yields an exclusive borrow of the next remaining value, or `None`
    /// when the traversal is done. At most one yielded borrow is live at
    /// a time unless the caller keeps earlier ones, which borrow nodes
    /// this cursor has already passed and will never revisit.
    pub fn next(&mut self) -> (item: Option<&'a mut T>)
        ensures
            old(self)@.len() == 0 ==> item is None && final(self)@ == old(self)@,
            old(self)@.len() > 0 ==> match item {
                Some(v) => *v == old(self)@[0] && final(self)@ == old(self)@.skip(1),
                None => false,
            },
    {
        match self.next.take() {
            Some(node) => {
                self.next = match &mut node.next {
                    Some(next_node) => Some(&mut **next_node),
                    None => None,
                };
                proof {
                    assert(self@ =~= old(self)@.skip(1));
                }
                Some(&mut node.value)
            }
            None => None,
        }
    }
}

} // verus!
