//! An immutable list whose values share their tails structurally.
//!
//! Nodes are never mutated after creation, so many list values may hold
//! the same suffix at once: [`List::prepend`] builds one new node in
//! front of a shared tail, and [`List::tail`] returns a value sharing
//! the suffix behind the first node. Reclaiming nodes is the delicate
//! part: [`List::clear`] walks the chain iteratively and reclaims a node
//! only while it is the last holder, stopping at the first node some
//! other list value still shares.

use std::rc::Rc;
use vstd::prelude::*;

verus! {

/// An immutable singly linked list with structural sharing.
pub struct List<T> {
    head: Link<T>,
}

type Link<T> = Option<Rc<Node<T>>>;

struct Node<T> {
    value: T,
    next: Link<T>,
}

/// The values hanging off a link, nearest first.
spec fn link_view<T>(link: Link<T>) -> Seq<T>
    decreases link,
{
    match link {
        Option::None => Seq::empty(),
        Option::Some(node) => seq![node.value] + link_view(node.next),
    }
}

impl<T> View for List<T> {
    type V = Seq<T>;

    /// The list's values, first value first.
    closed spec fn view(&self) -> Seq<T> {
        link_view(self.head)
    }
}

impl<T> List<T> {
    /// An empty list.
    pub fn new() -> (list: Self)
        ensures
            list@ == Seq::<T>::empty(),
    {
        Self { head: None }
    }

    /// A new list holding `value` in front of this list's values. The
    /// tail is shared, not copied, and this list is left as it was.
    pub fn prepend(&self, value: T) -> (list: Self)
        ensures
            list@ == crate::pushed(self@, value),
    {
        let next = match &self.head {
            Some(rc) => Some(rc.clone()),
            None => None,
        };
        Self { head: Some(Rc::new(Node { value, next })) }
    }

    /// A new list sharing this list's values behind the first one; empty
    /// if this list has at most one value.
    pub fn tail(&self) -> (list: Self)
        ensures
            self@.len() == 0 ==> list@ == Seq::<T>::empty(),
            self@.len() > 0 ==> list@ == self@.skip(1),
    {
        let head = match &self.head {
            Some(rc) => match &rc.next {
                Some(next_rc) => Some(next_rc.clone()),
                None => None,
            },
            None => None,
        };
        let list = Self { head };
        proof {
            if self@.len() > 0 {
                assert(list@ =~= self@.skip(1));
            }
        }
        list
    }

    /// Borrows the first value, or returns `None` on an empty list.
    pub fn head(&self) -> (borrowed: Option<&T>)
        ensures
            self@.len() == 0 ==> borrowed is None,
            self@.len() > 0 ==> (borrowed matches Some(v) && *v == self@[0]),
    {
        match &self.head {
            Some(rc) => Some(&rc.value),
            None => None,
        }
    }

    /// A borrowing traversal over the values, first to last. Nodes are
    /// immutable, so any number of traversals may run at once, over this
    /// list value or others sharing its nodes.
    pub fn iter(&self) -> (it: Iter<'_, T>)
        ensures
            it@ == self@,
    {
        Iter {
            next: match &self.head {
                Some(rc) => Some(&**rc),
                None => None,
            },
        }
    }

    /// Releases this list's hold on its chain, one node per loop step.
    /// A node is reclaimed only while this walk is its last holder; the
    /// walk stops at the first node some other list value still shares,
    /// leaving that suffix to its remaining holders. The teardown never
    /// recurses down the chain, however long it is.
    pub fn clear(&mut self)
        ensures
            final(self)@ == Seq::<T>::empty(),
    {
        let mut head = self.head.take();

        loop
            invariant
                self@ == Seq::<T>::empty(),
            decreases link_view(head).len(),
        {
            match head {
                Some(rc) => {
                    match Rc::try_unwrap(rc) {
                        Ok(mut node) => {
                            head = node.next.take();
                        }
                        Err(_) => {
                            break;
                        }
                    }
                }
                None => {
                    break;
                }
            }
        }
    }
}

/// A borrowing traversal: holds the not-yet-visited remainder of the
/// chain as a shared borrow.
pub struct Iter<'a, T> {
    next: Option<&'a Node<T>>,
}

impl<'a, T> View for Iter<'a, T> {
    type V = Seq<T>;

    /// The values not yet yielded, next first.
    closed spec fn view(&self) -> Seq<T> {
        match self.next {
            Some(node) => seq![node.value] + link_view(node.next),
            None => Seq::empty(),
        }
    }
}

impl<'a, T> Iter<'a, T> {
    /// Yields a borrow of the next remaining value, or `None` when the
    /// traversal is done.
    pub fn next(&mut self) -> (item: Option<&'a T>)
        ensures
            old(self)@.len() == 0 ==> item is None && final(self)@ == old(self)@,
            old(self)@.len() > 0 ==> (item matches Some(v) && *v == old(self)@[0]
                && final(self)@ == old(self)@.skip(1)),
    {
        match self.next {
            Some(node) => {
                self.next = match &node.next {
                    Some(next_rc) => Some(&**next_rc),
                    None => None,
                };
                proof {
                    assert(self@ =~= old(self)@.skip(1));
                }
                Some(&node.value)
            }
            None => None,
        }
    }
}

} // verus!
