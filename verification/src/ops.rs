//! Indexing, appending with `+` and `+=`, equality and cloning.

use crate::list::Link;
use crate::model;
use crate::node::Node;
use std::ops::{Add, AddAssign, Index, IndexMut};
use vstd::prelude::*;
use vstd::std_specs::cmp::{PartialEqSpec, PartialEqSpecImpl};
use vstd::std_specs::ops::AddSpecImpl;

verus! {

impl<T> Index<usize> for Link<T> {
    type Output = T;

    /// The element at index `i`, which must be within the list.
    fn index(&self, i: usize) -> (r: &T)
        ensures
            *r == self@[i as int],
    {
        let node = self.get(i).unwrap();
        assert(node@[0] == self@[i as int]);
        &node.value
    }
}

impl<T> vstd::std_specs::core::IndexSpecImpl<usize> for Link<T> {
    /// Indexing asks for an index within the list.
    open spec fn index_req(&self, index: &usize) -> bool {
        *index < self@.len()
    }
}

impl<T> IndexMut<usize> for Link<T> {
    /// The element at index `i`, which must be within the list, for
    /// changing it.
    fn index_mut(&mut self, i: usize) -> (r: &mut T)
        requires
            i < old(self)@.len(),
        ensures
            *r == old(self)@[i as int],
            final(self)@ == model::replace(old(self)@, i as int, *final(r)),
    {
        let node = self.get_mut(i).unwrap();
        proof {
            model::lemma_step(old(self)@, i as int, node.value, node.next@);
            assert forall|v: T|
                old(self)@.take(i as int) + (seq![v] + node.next@) == #[trigger] old(self)@.update(
                    i as int,
                    v,
                ) by {
                model::lemma_replace(old(self)@, i as int, v);
            }
        }
        &mut node.value
    }
}

impl<T> Add<T> for Link<T> {
    type Output = Link<T>;

    /// The list with `rhs` appended behind its last element.
    fn add(self, rhs: T) -> (sum: Link<T>)
        ensures
            sum@ == model::push_back(self@, rhs),
    {
        let mut this = self;
        this.push_back(rhs);
        proof {
            this.lemma_of_view();
        }
        this
    }
}

impl<T> AddSpecImpl<T> for Link<T> {
    open spec fn obeys_add_spec() -> bool {
        true
    }

    open spec fn add_req(self, rhs: T) -> bool {
        true
    }

    open spec fn add_spec(self, rhs: T) -> Link<T> {
        Link::of(model::push_back(self@, rhs))
    }
}

impl<T> Add<Link<T>> for Link<T> {
    type Output = Link<T>;

    /// The list with all of `rhs` appended behind its last element.
    fn add(self, rhs: Link<T>) -> (sum: Link<T>)
        ensures
            sum@ == model::concat(self@, rhs@),
    {
        let mut this = self;
        this.concat(rhs);
        proof {
            this.lemma_of_view();
        }
        this
    }
}

impl<T> AddSpecImpl<Link<T>> for Link<T> {
    open spec fn obeys_add_spec() -> bool {
        true
    }

    open spec fn add_req(self, rhs: Link<T>) -> bool {
        true
    }

    open spec fn add_spec(self, rhs: Link<T>) -> Link<T> {
        Link::of(model::concat(self@, rhs@))
    }
}

impl<T> AddAssign<T> for Link<T> {
    /// Appends `other` behind the last element.
    fn add_assign(&mut self, other: T)
        ensures
            final(self)@ == model::push_back(old(self)@, other),
    {
        self.push_back(other);
    }
}

impl<T> AddAssign<Link<T>> for Link<T> {
    /// Appends all of `other` behind the last element.
    fn add_assign(&mut self, other: Link<T>)
        ensures
            final(self)@ == model::concat(old(self)@, other@),
    {
        self.concat(other);
    }
}

impl<T: PartialEq> PartialEq for Link<T> {
    /// Whether the two lists have the same length and equal elements at
    /// every index. Lists of different lengths are never equal, whatever
    /// the elements' own `==` answers; where that `==` keeps to its
    /// specification the result is `eq_spec`.
    fn eq(&self, other: &Self) -> (b: bool)
        ensures
            b ==> self@.len() == other@.len(),
    {
        let mut a = self.iter();
        let mut c = other.iter();
        let ghost mut k: int = 0;
        loop
            invariant
                0 <= k <= self@.len(),
                k <= other@.len(),
                a@ == self@.skip(k),
                c@ == other@.skip(k),
                T::obeys_eq_spec() ==> forall|j: int|
                    0 <= j < k ==> #[trigger] self@[j].eq_spec(&other@[j]),
            decreases a@.len(),
        {
            match (a.next(), c.next()) {
                (Some(v1), Some(v2)) => {
                    if v1 != v2 {
                        return false;
                    }
                    proof {
                        k = k + 1;
                    }
                },
                (None, None) => {
                    return true;
                },
                _ => {
                    return false;
                },
            }
        }
    }
}

impl<T: PartialEq> PartialEqSpecImpl for Link<T> {
    open spec fn obeys_eq_spec() -> bool {
        T::obeys_eq_spec()
    }

    /// The same length, and elements that are equal index by index.
    open spec fn eq_spec(&self, other: &Self) -> bool {
        &&& self@.len() == other@.len()
        &&& forall|i: int| 0 <= i < self@.len() ==> #[trigger] self@[i].eq_spec(&other@[i])
    }
}

impl<T: Clone> Clone for Node<T> {
    /// A chain of the same length whose elements are clones of this
    /// chain's elements, index by index.
    fn clone(&self) -> (res: Self)
        ensures
            res@.len() == self@.len(),
            forall|i: int| 0 <= i < self@.len() ==> cloned(self@[i], #[trigger] res@[i]),
        decreases self,
    {
        let res = Node { value: self.value.clone(), next: self.next.clone() };
        assert forall|i: int| 0 <= i < self@.len() implies cloned(self@[i], #[trigger] res@[i]) by {
            if i > 0 {
                assert(self@[i] == self.next@[i - 1]);
                assert(res@[i] == res.next@[i - 1]);
            }
        }
        res
    }
}

impl<T: Clone> Clone for Link<T> {
    /// A list of the same length whose elements are clones of this list's
    /// elements, index by index.
    fn clone(&self) -> (res: Self)
        ensures
            res@.len() == self@.len(),
            forall|i: int| 0 <= i < self@.len() ==> cloned(self@[i], #[trigger] res@[i]),
        decreases self,
    {
        match &self.0 {
            Some(node) => Link(Some(Box::new((&**node).clone()))),
            None => Link(None),
        }
    }
}

} // verus!
