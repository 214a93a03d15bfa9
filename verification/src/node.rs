//! One node of the chain, and what can be done from a node.

use crate::list::Link;
use crate::model;
use vstd::prelude::*;

verus! {

/// One element, and the owner of the rest of the chain.
pub struct Node<T> {
    /// The element that this node holds.
    pub value: T,
    /// The chain behind this node, which this node owns.
    pub next: Link<T>,
}

impl<T> View for Node<T> {
    type V = Seq<T>;

    /// A node stands for its own element followed by those behind it.
    open spec fn view(&self) -> Seq<T> {
        seq![self.value] + self.next@
    }
}

impl<T> Node<T> {
    /// A node that holds `value` in front of the chain `data`.
    pub(crate) fn new(value: T, data: Option<Box<Self>>) -> (n: Self)
        ensures
            n.value == value,
            n.next.0 == data,
    {
        Self { value, next: Link::from(data) }
    }

    /// The list whose first node is this one.
    pub fn as_link(self) -> (l: Link<T>)
        ensures
            l.0 == Some(Box::new(self)),
            l@ == self@,
    {
        Link(Some(Box::new(self)))
    }

    /// The node behind this one, or `None` at the end of the chain.
    pub fn next(&self) -> (r: Option<&Self>)
        ensures
            r is Some <==> self@.len() > 1,
            r is Some ==> r->0@ == self@.skip(1),
    {
        match self.next.0.as_ref() {
            Some(n) => Some(&**n),
            None => None,
        }
    }

    /// The node `n` steps behind this one (this one for `n == 0`), or
    /// `None` when the chain ends before.
    pub fn skip(&self, n: usize) -> (r: Option<&Self>)
        ensures
            r is Some <==> n < self@.len(),
            r is Some ==> r->0@ == self@.skip(n as int),
    {
        let mut node = self;
        for k in 0..n
            invariant
                k < self@.len(),
                node@ == self@.skip(k as int),
        {
            proof {
                model::lemma_step(self@, k as int, node.value, node.next@);
            }
            node = node.next.0.as_ref()?;
        }
        Some(node)
    }

    /// As `next`, for changing the node. What the caller makes of it
    /// replaces the chain behind this node.
    pub fn next_mut(&mut self) -> (r: Option<&mut Self>)
        ensures
            r is Some <==> old(self)@.len() > 1,
            r is Some ==> r->0@ == old(self)@.skip(1),
            r is Some ==> final(self)@ == seq![old(self).value] + final(r->0)@,
            r is None ==> *final(self) == *old(self),
            final(self).value == old(self).value,
    {
        match self.next.0.as_mut() {
            Some(n) => Some(&mut **n),
            None => None,
        }
    }

    /// As `skip`, for changing the node. What the caller makes of it
    /// replaces the chain from that node on.
    #[verifier::loop_isolation(false)]
    pub fn skip_mut(self: &mut Self, n: usize) -> (r: Option<&mut Self>)
        ensures
            r is Some <==> n < old(self)@.len(),
            r is Some ==> r->0@ == old(self)@.skip(n as int),
            r is Some ==> final(self)@ == old(self)@.take(n as int) + final(r->0)@,
            r is None ==> final(self)@ == old(self)@,
    {
        let ghost after = *final(self);
        let mut node = self;
        for k in 0..n
            invariant
                k < old(self)@.len(),
                node@ == old(self)@.skip(k as int),
                after@ == old(self)@.take(k as int) + final(node)@,
        {
            proof {
                model::lemma_step(old(self)@, k as int, node.value, node.next@);
            }
            node = node.next.0.as_mut()?;
        }
        Some(node)
    }

    /// Puts a new node with `value` directly behind this one and returns
    /// it. What the caller makes of the new node replaces the chain behind
    /// this one.
    pub fn insert_next(&mut self, value: T) -> (r: &mut Self)
        ensures
            r@ == seq![value] + old(self)@.skip(1),
            final(self)@ == seq![old(self).value] + final(r)@,
            final(self).value == old(self).value,
    {
        let n = Node::new(value, self.next.0.take());
        self.next = Link::from(Some(Box::new(n)));
        self.next.0.as_mut().unwrap()
    }

    /// Takes the node directly behind this one out of the chain and
    /// returns its value; `None`, and no change, at the end of the chain.
    pub fn pop_next(&mut self) -> (r: Option<T>)
        ensures
            r == model::element(old(self)@, 1),
            final(self)@ == model::delete(old(self)@, 1),
            final(self).value == old(self).value,
    {
        let n = self.next.0.take()?;
        self.next = n.next;
        Some(n.value)
    }
}

} // verus!
