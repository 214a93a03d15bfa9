//! The node chain and the list handle.

use crate::model;
use crate::node::Node;
use vstd::prelude::*;

verus! {

/// A list: either empty, or the owner of its first node.
pub struct Link<T>(pub Option<Box<Node<T>>>);

impl<T> Link<T> {
    /// The elements of the chain, first node first.
    pub open spec fn elements(self) -> Seq<T>
        decreases self,
    {
        match self.0 {
            None => Seq::empty(),
            Some(n) => seq![n.value] + n.next.elements(),
        }
    }
}

impl<T> View for Link<T> {
    type V = Seq<T>;

    /// A list stands for the sequence of its elements.
    open spec fn view(&self) -> Seq<T> {
        self.elements()
    }
}

impl<T> Link<T> {
    /// The list that holds exactly the elements of `s`, in order.
    pub open spec fn of(s: Seq<T>) -> Link<T>
        decreases s.len(),
    {
        if s.len() == 0 {
            Link(None)
        } else {
            Link(Some(Box::new(Node { value: s[0], next: Self::of(s.skip(1)) })))
        }
    }

    /// A list is determined by its elements: it is the list built from its
    /// own view.
    pub proof fn lemma_of_view(self)
        ensures
            Self::of(self@) == self,
        decreases self,
    {
        match self.0 {
            None => {},
            Some(n) => {
                n.next.lemma_of_view();
                assert(self@.skip(1) =~= n.next@);
            },
        }
    }
}

impl<T> Link<T> {
    /// The list that owns the chain `data`.
    pub(crate) fn from(data: Option<Box<Node<T>>>) -> (l: Self)
        ensures
            l.0 == data,
    {
        Link(data)
    }

    /// Walks to the last node of the chain that starts at `head`. Whatever
    /// the caller then makes of that node replaces the last element of the
    /// chain.
    pub(crate) fn end_node(head: &mut Box<Node<T>>) -> (last: &mut Box<Node<T>>)
        ensures
            last.next.0 is None,
            last.value == old(head)@.last(),
            final(head)@ == old(head)@.drop_last() + final(last)@,
    {
        let ghost mut walked: Seq<T> = Seq::empty();
        let mut node = head;
        while node.next.0.is_some()
            invariant
                old(head)@ == walked + node@,
                final(head)@ == walked + final(node)@,
            decreases node@.len(),
        {
            proof {
                walked = walked.push(node.value);
            }
            node = node.next.0.as_mut().unwrap();
        }
        node
    }

    /// An empty list.
    pub fn new() -> (l: Self)
        ensures
            l@ == Seq::<T>::empty(),
    {
        Link::from(None)
    }

    /// Appends `val` behind the last element.
    pub fn push_back(&mut self, val: T)
        ensures
            final(self)@ == model::push_back(old(self)@, val),
    {
        let n = Node::new(val, None);
        assert(n@ =~= seq![val]);
        match self.0.as_mut() {
            None => {
                self.0 = Some(Box::new(n));
                assert(self@ =~= old(self)@.push(val));
            },
            Some(node) => {
                let last = Self::end_node(node);
                last.next = Self::from(Some(Box::new(n)));
                assert(last@ =~= seq![last.value, val]);
                assert(old(self)@.drop_last() + seq![old(self)@.last(), val] =~= old(self)@.push(val));
            },
        }
    }

    /// Removes the last element and returns it; `None` on an empty list,
    /// which stays as it is.
    #[verifier::loop_isolation(false)]
    pub fn pop_back(&mut self) -> (r: Option<T>)
        ensures
            r == model::back(old(self)@),
            final(self)@ == model::pop_back(old(self)@),
    {
        let ghost after = *final(self);
        let ghost mut walked: Seq<T> = Seq::empty();
        let node = &mut self.0;
        if node.as_ref()?.next.0.is_none() {
            assert(old(self).0->0.next@ =~= Seq::empty());
            assert(old(self)@ =~= seq![old(self)@[0]]);
            assert(Seq::<T>::empty() =~= old(self)@.take(0));
            return Some(node.take()?.value)
        }
        let mut node = node.as_mut()?;
        while node.next.0.as_ref()?.next.0.is_some()
            invariant
                node.next.0 is Some,
                old(self)@ == walked + node@,
                after@ == walked + final(node)@,
            decreases node@.len(),
        {
            proof {
                walked = walked.push(node.value);
            }
            node = node.next.0.as_mut()?;
        }
        Some(node.next.0.take()?.value)
    }

    /// A node of the chain by its index: the node reached after `i` steps
    /// from the first, or `None` when the chain is too short.
    pub fn get(&self, i: usize) -> (r: Option<&Box<Node<T>>>)
        ensures
            r is Some <==> i < self@.len(),
            r is Some ==> r->0@ == self@.skip(i as int),
    {
        let mut node = self.0.as_ref()?;
        for k in 0..i
            invariant
                k < self@.len(),
                node@ == self@.skip(k as int),
        {
            proof {
                model::lemma_step(self@, k as int, node.value, node.next@);
            }
            node = node.next.0.as_ref()?;
        }
        Some(node)
    }

    /// As `get`, for changing the node. What the caller makes of the node
    /// replaces the list from index `i` on.
    #[verifier::loop_isolation(false)]
    pub fn get_mut(&mut self, i: usize) -> (r: Option<&mut Box<Node<T>>>)
        ensures
            r is Some <==> i < old(self)@.len(),
            r is Some ==> r->0@ == old(self)@.skip(i as int),
            r is Some ==> final(self)@ == old(self)@.take(i as int) + final(r->0)@,
            r is None ==> final(self)@ == old(self)@,
    {
        let ghost after = *final(self);
        let mut node = self.0.as_mut()?;
        for k in 0..i
            invariant
                k < old(self)@.len(),
                node@ == old(self)@.skip(k as int),
                after@ == old(self)@.take(k as int) + final(node)@,
        {
            proof {
                model::lemma_step(old(self)@, k as int, node.value, node.next@);
            }
            node = node.next.0.as_mut()?;
        }
        Some(node)
    }

    /// The number of elements.
    pub fn len(&self) -> (n: usize)
        requires
            self@.len() <= usize::MAX,
        ensures
            n == self@.len(),
    {
        let mut len: usize = 0;
        let mut node = self.0.as_ref();
        while node.is_some()
            invariant
                self@.len() <= usize::MAX,
                len <= self@.len(),
                model::suffix(self@, len as int) == (match node {
                    Some(n) => n@,
                    None => Seq::empty(),
                }),
            decreases self@.len() - len,
        {
            let n = node.unwrap();
            proof {
                model::lemma_step(self@, len as int, n.value, n.next@);
            }
            node = n.next.0.as_ref();
            len += 1;
        }
        len
    }

    /// Places `val` so that it stands at index `i`, and returns a reference
    /// to it. Fails with `None`, leaving the list as it is, when `i` is
    /// greater than the length.
    pub fn insert(&mut self, i: usize, val: T) -> (r: Option<&T>)
        ensures
            r == (if i <= old(self)@.len() { Some(&val) } else { None }),
            final(self)@ == model::insert(old(self)@, i as int, val),
    {
        if i == 0 {
            self.push(val);
            assert(self@ =~= model::insert(old(self)@, 0, val));
            self.front()
        } else {
            let node = self.get_mut(i - 1)?;
            proof {
                model::lemma_step(old(self)@, i - 1, node.value, node.next@);
            }
            let n = Node::new(val, node.next.0.take());
            node.next = Self::from(Some(Box::new(n)));
            assert(old(self)@.take(i - 1) + node@ =~= model::insert(old(self)@, i as int, val));
            Some(&node.next.0.as_ref()?.value)
        }
    }

    /// Removes the element at index `i` and returns it. Fails with `None`,
    /// leaving the list as it is, when there is no such index.
    pub fn delete(&mut self, i: usize) -> (r: Option<T>)
        ensures
            r == model::element(old(self)@, i as int),
            final(self)@ == model::delete(old(self)@, i as int),
    {
        if i == 0 {
            let r = self.pop();
            assert(self@ =~= model::delete(old(self)@, 0));
            r
        } else {
            let node = self.get_mut(i - 1)?;
            proof {
                model::lemma_step(old(self)@, i - 1, node.value, node.next@);
            }
            proof {
                if node.next.0 is None {
                    assert(node.next@ =~= Seq::empty());
                }
            }
            let n = node.next.0.take()?;
            proof {
                model::lemma_step(old(self)@, i as int, n.value, n.next@);
            }
            node.next = n.next;
            assert(old(self)@.take(i - 1) + node@ =~= model::delete(old(self)@, i as int));
            Some(n.value)
        }
    }

    /// Places `val` in front of the first element.
    pub fn push(&mut self, val: T)
        ensures
            final(self)@ == model::push_front(old(self)@, val),
    {
        let n = Node::new(val, self.0.take());
        self.0 = Some(Box::new(n));
    }

    /// Removes the first element and returns it; `None` on an empty list,
    /// which stays as it is.
    pub fn pop(&mut self) -> (r: Option<T>)
        ensures
            r == model::front(old(self)@),
            final(self)@ == model::pop_front(old(self)@),
    {
        let node = self.0.take()?;
        *self = node.next;
        Some(node.value)
    }

    /// The first element, or `None` on an empty list.
    pub fn front(&self) -> (r: Option<&T>)
        ensures
            r == (match model::front(self@) {
                Some(v) => Some(&v),
                None => None,
            }),
    {
        Some(&self.0.as_ref()?.value)
    }

    /// Whether the list holds no element.
    pub fn empty(&self) -> (b: bool)
        ensures
            b == (self@.len() == 0),
    {
        self.0.is_none()
    }

    /// Moves all of `other` behind the last element.
    pub fn concat(&mut self, other: Self)
        ensures
            final(self)@ == model::concat(old(self)@, other@),
    {
        match self.0.as_mut() {
            None => *self = other,
            Some(node) => Self::end_node(node).next = other,
        }
    }

    /// Splits the list behind index `at`: the list keeps the elements up to
    /// and including `at`, the rest is returned. When there is no index
    /// `at` the list stays as it is and an empty list is returned.
    pub fn split_off(&mut self, at: usize) -> (rest: Self)
        ensures
            final(self)@ == model::split_keep(old(self)@, at as int),
            rest@ == model::split_rest(old(self)@, at as int),
    {
        if let Some(node) = self.get_mut(at) {
            proof {
                model::lemma_step(old(self)@, at as int, node.value, node.next@);
            }
            let rest = Link::from(node.next.0.take());
            assert(old(self)@.take(at as int) + node@ =~= old(self)@.take(at + 1));
            rest
        } else {
            Link::new()
        }
    }

    /// Hands the whole chain out as a list of its own and leaves this one
    /// empty.
    pub fn take(&mut self) -> (all: Self)
        ensures
            all@ == old(self)@,
            final(self)@ == Seq::<T>::empty(),
    {
        Link::from(self.0.take())
    }

    /// The first element, for changing it; `None` on an empty list.
    pub fn front_mut(&mut self) -> (r: Option<&mut T>)
        ensures
            r is Some <==> old(self)@.len() > 0,
            r is Some ==> *r->0 == old(self)@[0],
            r is Some ==> final(self)@ == model::replace(old(self)@, 0, *final(r->0)),
            r is None ==> final(self)@ == old(self)@,
    {
        Some(&mut self.0.as_mut()?.value)
    }

    /// The last element, or `None` on an empty list.
    pub fn back(&self) -> (r: Option<&T>)
        ensures
            r == (match model::back(self@) {
                Some(v) => Some(&v),
                None => None,
            }),
    {
        let ghost mut walked: Seq<T> = Seq::empty();
        let mut p = self.0.as_ref()?;
        while p.next.0.is_some()
            invariant
                self@ == walked + p@,
            decreases p@.len(),
        {
            proof {
                walked = walked.push(p.value);
            }
            p = p.next.0.as_ref().unwrap();
        }
        assert(p@ =~= seq![p.value]);
        Some(&p.value)
    }

    /// The last element, for changing it; `None` on an empty list.
    #[verifier::loop_isolation(false)]
    pub fn back_mut(&mut self) -> (r: Option<&mut T>)
        ensures
            r is Some <==> old(self)@.len() > 0,
            r is Some ==> *r->0 == old(self)@.last(),
            r is Some ==> final(self)@ == model::replace(
                old(self)@,
                old(self)@.len() - 1,
                *final(r->0),
            ),
            r is None ==> final(self)@ == old(self)@,
    {
        let ghost after = *final(self);
        let ghost mut walked: Seq<T> = Seq::empty();
        let mut p = self.0.as_mut()?;
        while p.next.0.is_some()
            invariant
                old(self)@ == walked + p@,
                after@ == walked + final(p)@,
            decreases p@.len(),
        {
            proof {
                walked = walked.push(p.value);
            }
            p = p.next.0.as_mut().unwrap();
        }
        Some(&mut p.value)
    }
}

} // verus!
