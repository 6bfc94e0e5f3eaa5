//! A double-ended queue, readable and writable at both ends.
//!
//! The queue is modelled by the sequence of its values, front first.
//! Pushing and popping work at either end; peeking lends a value out at
//! either end, for reading or for writing, without detaching it. When
//! the queue holds exactly one value, the front and the back are that
//! same value, so a write through one end is observed at the other.

use std::collections::VecDeque;
use vstd::prelude::*;

verus! {

/// A double-ended queue.
pub struct List<T> {
    buf: VecDeque<T>,
}

/// Relies on `VecDeque::index_mut`: a mutable borrow of the value at
/// `index`, writes through which land at that index and nowhere else.
#[verifier::external_body]
fn buf_index_mut<T>(buf: &mut VecDeque<T>, index: usize) -> (element: &mut T)
    requires
        index < old(buf).len(),
    ensures
        *element == old(buf)@[index as int],
        final(buf)@ == old(buf)@.update(index as int, *final(element)),
{
    &mut buf[index]
}

impl<T> View for List<T> {
    type V = Seq<T>;

    /// The queue's values, front first.
    closed spec fn view(&self) -> Seq<T> {
        self.buf@
    }
}

impl<T> List<T> {
    /// An empty queue.
    pub fn new() -> (queue: Self)
        ensures
            queue@ == Seq::<T>::empty(),
    {
        Self { buf: VecDeque::new() }
    }

    /// Puts `value` in front of the queue's values.
    pub fn push_front(&mut self, value: T)
        ensures
            final(self)@ == crate::pushed(old(self)@, value),
    {
        self.buf.push_front(value);
    }

    /// Detaches and returns the front value, or returns `None` on an
    /// empty queue.
    pub fn pop_front(&mut self) -> (popped: Option<T>)
        ensures
            old(self)@.len() == 0 ==> popped is None && final(self)@ == old(self)@,
            old(self)@.len() > 0 ==> (popped matches Some(v) && v == old(self)@[0]
                && final(self)@ == old(self)@.skip(1)),
    {
        let popped = self.buf.pop_front();
        proof {
            if old(self)@.len() > 0 {
                assert(self@ =~= old(self)@.skip(1));
            }
        }
        popped
    }

    /// Borrows the front value, or returns `None` on an empty queue.
    pub fn peek_front(&self) -> (borrowed: Option<&T>)
        ensures
            self@.len() == 0 ==> borrowed is None,
            self@.len() > 0 ==> (borrowed matches Some(v) && *v == self@[0]),
    {
        if self.buf.len() > 0 {
            Some(&self.buf[0])
        } else {
            None
        }
    }

    /// Puts `value` behind the queue's values.
    pub fn push_back(&mut self, value: T)
        ensures
            final(self)@ == old(self)@.push(value),
    {
        self.buf.push_back(value);
    }

    /// Detaches and returns the back value, or returns `None` on an
    /// empty queue.
    pub fn pop_back(&mut self) -> (popped: Option<T>)
        ensures
            old(self)@.len() == 0 ==> popped is None && final(self)@ == old(self)@,
            old(self)@.len() > 0 ==> (popped matches Some(v)
                && v == old(self)@[old(self)@.len() - 1]
                && final(self)@ == old(self)@.drop_last()),
    {
        let popped = self.buf.pop_back();
        proof {
            if old(self)@.len() > 0 {
                assert(self@ =~= old(self)@.drop_last());
            }
        }
        popped
    }

    /// Borrows the back value, or returns `None` on an empty queue.
    pub fn peek_back(&self) -> (borrowed: Option<&T>)
        ensures
            self@.len() == 0 ==> borrowed is None,
            self@.len() > 0 ==> (borrowed matches Some(v) && *v == self@[self@.len() - 1]),
    {
        if self.buf.len() > 0 {
            Some(&self.buf[self.buf.len() - 1])
        } else {
            None
        }
    }

    /// Lends the back value out for writing: whatever the caller leaves
    /// in the borrow is what the queue holds at the back afterwards.
    pub fn peek_back_mut(&mut self) -> (borrowed: Option<&mut T>)
        ensures
            old(self)@.len() == 0 ==> borrowed is None && final(self)@ == old(self)@,
            old(self)@.len() > 0 ==> match borrowed {
                Some(v) => *v == old(self)@[old(self)@.len() - 1]
                    && final(self)@ == old(self)@.update(old(self)@.len() - 1, *final(v)),
                None => false,
            },
    {
        if self.buf.len() > 0 {
            let index: usize = self.buf.len() - 1;
            Some(buf_index_mut(&mut self.buf, index))
        } else {
            None
        }
    }

    /// Lends the front value out for writing: whatever the caller leaves
    /// in the borrow is what the queue holds in front afterwards.
    pub fn peek_front_mut(&mut self) -> (borrowed: Option<&mut T>)
        ensures
            old(self)@.len() == 0 ==> borrowed is None && final(self)@ == old(self)@,
            old(self)@.len() > 0 ==> match borrowed {
                Some(v) => *v == old(self)@[0]
                    && final(self)@ == old(self)@.update(0, *final(v)),
                None => false,
            },
    {
        if self.buf.len() > 0 {
            Some(buf_index_mut(&mut self.buf, 0))
        } else {
            None
        }
    }

    /// Hands the queue over to a consuming traversal that can drain it
    /// from either end.
    pub fn into_iter(self) -> (it: IntoIter<T>)
        ensures
            it@ == self@,
    {
        IntoIter(self)
    }

    /// Empties the queue by detaching the front value one loop step at a
    /// time: the teardown never recurses, however long the queue is.
    pub fn clear(&mut self)
        ensures
            final(self)@ == Seq::<T>::empty(),
    {
        loop
            ensures
                self@.len() == 0,
            decreases self@.len(),
        {
            let popped = self.pop_front();
            if popped.is_none() {
                break;
            }
        }
        proof {
            assert(self@ =~= Seq::<T>::empty());
        }
    }
}

/// When the queue holds exactly one value, the front and the back are
/// that same value: a write through either end is observed at both ends.
pub proof fn lemma_single_value_shared<T>(queue: Seq<T>, w: T)
    requires
        queue.len() == 1,
    ensures
        queue.update(queue.len() - 1, w)[0] == w,
        queue.update(0, w)[queue.len() - 1] == w,
{
}

/// A consuming double-ended traversal: owns what is left of the queue
/// and drains it from whichever end is asked. When the two ends meet in
/// the middle, both report that the traversal is done.
pub struct IntoIter<T>(List<T>);

impl<T> View for IntoIter<T> {
    type V = Seq<T>;

    /// The values not yet yielded, front first.
    closed spec fn view(&self) -> Seq<T> {
        self.0@
    }
}

impl<T> IntoIter<T> {
    /// Yields the next remaining value from the front, or `None` when
    /// the queue is drained.
    pub fn next(&mut self) -> (item: Option<T>)
        ensures
            old(self)@.len() == 0 ==> item is None && final(self)@ == old(self)@,
            old(self)@.len() > 0 ==> (item matches Some(v) && v == old(self)@[0]
                && final(self)@ == old(self)@.skip(1)),
    {
        self.0.pop_front()
    }

    /// Yields the next remaining value from the back, or `None` when the
    /// queue is drained.
    pub fn next_back(&mut self) -> (item: Option<T>)
        ensures
            old(self)@.len() == 0 ==> item is None && final(self)@ == old(self)@,
            old(self)@.len() > 0 ==> (item matches Some(v)
                && v == old(self)@[old(self)@.len() - 1]
                && final(self)@ == old(self)@.drop_last()),
    {
        self.0.pop_back()
    }
}

} // verus!
