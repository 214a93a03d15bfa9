//! The three ways to walk a list: by shared reference, by mutable reference
//! with a cursor that can insert and remove, and by value.

use crate::list::Link;
use crate::model;
use crate::node::Node;
use vstd::prelude::*;
use vstd::std_specs::iter::IteratorSpecImpl;

verus! {

/// Walks a list and yields a shared reference to each element.
pub struct Iter<'a, T> {
    data: Option<&'a Box<Node<T>>>,
}

impl<'a, T> View for Iter<'a, T> {
    type V = Seq<T>;

    /// The elements that are still to come.
    closed spec fn view(&self) -> Seq<T> {
        match self.data {
            Some(n) => n@,
            None => Seq::empty(),
        }
    }
}

impl<'a, T> Iterator for Iter<'a, T> {
    type Item = &'a T;

    /// Yields the next element, or `None` once the chain is exhausted.
    fn next(&mut self) -> (r: Option<&'a T>)
        ensures
            r == (match model::front(old(self)@) {
                Some(v) => Some(&v),
                None => None,
            }),
            final(self)@ == model::pop_front(old(self)@),
    {
        let node = self.data?;
        self.data = node.next.0.as_ref();
        Some(&node.value)
    }
}

impl<'a, T> IteratorSpecImpl for Iter<'a, T> {
    open spec fn obeys_prophetic_iter_laws(&self) -> bool {
        true
    }

    open spec fn remaining(&self) -> Seq<Self::Item> {
        self@.map(|i: int, v: T| &v)
    }

    open spec fn will_return_none(&self) -> bool {
        true
    }

    open spec fn decrease(&self) -> Option<nat> {
        Some(self@.len())
    }

    open spec fn initial_value_relation(&self, init: &Self) -> bool {
        self@ == init@
    }

    open spec fn peek(&self, index: int) -> Option<Self::Item> {
        if 0 <= index < self@.len() {
            Some(&self@[index])
        } else {
            None
        }
    }
}

impl<T> Link<T> {
    /// An iterator over shared references to the elements, in order.
    pub fn iter(&self) -> (it: Iter<'_, T>)
        ensures
            it@ == self@,
    {
        Iter { data: self.0.as_ref() }
    }
}

impl<'a, T> IntoIterator for &'a Link<T> {
    type Item = &'a T;

    type IntoIter = Iter<'a, T>;

    fn into_iter(self) -> (it: Iter<'a, T>)
        ensures
            it@ == self@,
    {
        self.iter()
    }
}

/// What an insertion through a cursor that addresses no node fails with.
pub const NO_DATA: &'static str = "The iterator is pointed at no data!";

/// Walks a list and yields a mutable reference to each element. Its cursor
/// addresses the node whose element comes next, and can insert a node
/// behind that node or remove the one behind it.
pub struct IterMut<'a, T> {
    /// The cursor: the node whose element comes next, with the chain behind
    /// it. `None` once the iterator has run off the end.
    pub data: Option<&'a mut Box<Node<T>>>,
}

impl<'a, T> View for IterMut<'a, T> {
    type V = Seq<T>;

    /// The elements that are still to come, as they are now.
    open spec fn view(&self) -> Seq<T> {
        match self.data {
            Some(n) => n@,
            None => Seq::empty(),
        }
    }
}

impl<'a, T> Iterator for IterMut<'a, T> {
    type Item = &'a mut T;

    /// Yields the next element for changing it, or `None` once the chain
    /// is exhausted. What the old cursor's chain ends up as is the yielded
    /// element, as the caller leaves it, followed by what the new cursor's
    /// chain ends up as.
    fn next(&mut self) -> (r: Option<&'a mut T>)
        ensures
            final(self)@ == model::pop_front(old(self)@),
            (match old(self).data {
                None => r is None && final(self).data is None,
                Some(n) => {
                    &&& r matches Some(v)
                    &&& *v == n@[0]
                    &&& final(n)@ == seq![*final(v)] + (match final(self).data {
                        Some(m) => final(m)@,
                        None => Seq::empty(),
                    })
                },
            }),
    {
        let node = self.data.take()?;
        self.data = node.next.0.as_mut();
        Some(&mut node.value)
    }
}

impl<'a, T> IteratorSpecImpl for IterMut<'a, T> {
    /// What this iterator yields is stated on `next` itself.
    open spec fn obeys_prophetic_iter_laws(&self) -> bool {
        false
    }

    open spec fn remaining(&self) -> Seq<Self::Item> {
        Seq::empty()
    }

    open spec fn will_return_none(&self) -> bool {
        true
    }

    open spec fn decrease(&self) -> Option<nat> {
        Some(self@.len())
    }

    open spec fn initial_value_relation(&self, init: &Self) -> bool {
        self@ == init@
    }

    open spec fn peek(&self, index: int) -> Option<Self::Item> {
        None
    }
}

impl<'a, T> IterMut<'a, T> {
    /// Puts a new node with `value` directly behind the node that the
    /// cursor addresses, so that `value` comes second in what is still to
    /// come. Fails with `NO_DATA`, with nothing changed, when the cursor
    /// addresses no node. The cursor goes on addressing the same node.
    pub fn insert_next(&mut self, value: T) -> (r: Result<(), &str>)
        ensures
            (match old(self).data {
                None => r == Err::<(), &str>(NO_DATA) && final(self).data is None,
                Some(n) => {
                    &&& r is Ok
                    &&& final(self).data matches Some(m)
                    &&& m@ == model::insert(n@, 1, value)
                    &&& *final(m) == *final(n)
                },
            }),
    {
        if let Some(node) = &mut self.data {
            let n = Node::new(value, node.next.0.take());
            node.next = Link::from(Some(Box::new(n)));
            Ok(())
        } else {
            Err(NO_DATA)
        }
    }

    /// Takes the node directly behind the one that the cursor addresses
    /// out of the chain and returns its value. `None`, with nothing
    /// changed, when the cursor addresses no node or the last one. The
    /// cursor goes on addressing the same node.
    pub fn pop_next(&mut self) -> (r: Option<T>)
        ensures
            (match old(self).data {
                None => r is None && final(self).data is None,
                Some(n) => {
                    &&& r == model::element(n@, 1)
                    &&& final(self).data matches Some(m)
                    &&& m@ == model::delete(n@, 1)
                    &&& *final(m) == *final(n)
                },
            }),
    {
        if let Some(node) = &mut self.data {
            let n = node.next.0.take()?;
            node.next = n.next;
            Some(n.value)
        } else {
            None
        }
    }
}

impl<T> Link<T> {
    /// An iterator over mutable references to the elements, in order. What
    /// the list ends up as is what the cursor's chain ends up as.
    pub fn iter_mut(&mut self) -> (it: IterMut<'_, T>)
        ensures
            it@ == old(self)@,
            final(self)@ == (match it.data {
                Some(m) => final(m)@,
                None => Seq::empty(),
            }),
    {
        IterMut { data: self.0.as_mut() }
    }
}

impl<'a, T> IntoIterator for &'a mut Link<T> {
    type Item = &'a mut T;

    type IntoIter = IterMut<'a, T>;

    fn into_iter(self) -> (it: IterMut<'a, T>)
        ensures
            it@ == old(self)@,
            final(self)@ == (match it.data {
                Some(m) => final(m)@,
                None => Seq::empty(),
            }),
    {
        self.iter_mut()
    }
}

/// Walks a list that it owns and yields each element by value.
pub struct IntoIter<T> {
    data: Link<T>,
}

impl<T> View for IntoIter<T> {
    type V = Seq<T>;

    /// The elements that are still to come.
    closed spec fn view(&self) -> Seq<T> {
        self.data@
    }
}

impl<T> Iterator for IntoIter<T> {
    type Item = T;

    /// Takes the first element out of the list and yields it, or yields
    /// `None` once the list is empty.
    fn next(&mut self) -> (r: Option<T>)
        ensures
            r == model::front(old(self)@),
            final(self)@ == model::pop_front(old(self)@),
    {
        let node = self.data.0.take()?;
        self.data = node.next;
        Some(node.value)
    }
}

impl<T> IteratorSpecImpl for IntoIter<T> {
    open spec fn obeys_prophetic_iter_laws(&self) -> bool {
        true
    }

    open spec fn remaining(&self) -> Seq<Self::Item> {
        self@
    }

    open spec fn will_return_none(&self) -> bool {
        true
    }

    open spec fn decrease(&self) -> Option<nat> {
        Some(self@.len())
    }

    open spec fn initial_value_relation(&self, init: &Self) -> bool {
        self@ == init@
    }

    open spec fn peek(&self, index: int) -> Option<Self::Item> {
        if 0 <= index < self@.len() {
            Some(self@[index])
        } else {
            None
        }
    }
}

impl<T> IntoIterator for Link<T> {
    type Item = T;

    type IntoIter = IntoIter<T>;

    fn into_iter(self) -> (it: IntoIter<T>)
        ensures
            it@ == self@,
    {
        IntoIter { data: self }
    }
}

} // verus!
