//! Building a list from a repeated value or from a sequence of values.

use crate::list::Link;
use crate::node::Node;
use vstd::prelude::*;
use vstd::std_specs::iter::IteratorSpec;

verus! {

impl<T> Link<T> {
    /// A list of `n` clones of `val`.
    pub fn from_elem(val: T, n: usize) -> (l: Self) where T: Clone
        ensures
            l@.len() == n,
            forall|i: int| 0 <= i < n ==> cloned(val, #[trigger] l@[i]),
    {
        let mut link: Link<T> = Self::new();
        for k in 0..n
            invariant
                link@.len() == k,
                forall|i: int| 0 <= i < k ==> cloned(val, #[trigger] link@[i]),
        {
            link.push(val.clone());
        }
        link
    }

    /// The list of the values that `iter` yields, in the order in which it
    /// yields them. The chain is built in one pass, front to back.
    pub fn from_iter<I: Iterator<Item = T>>(iter: I) -> (l: Self)
        requires
            iter.obeys_prophetic_iter_laws(),
            iter.decrease() is Some,
        ensures
            l@ == iter.remaining(),
    {
        let mut iter = iter;
        let ghost all = iter.remaining();
        let ghost mut taken: Seq<T> = Seq::empty();
        let mut link: Link<T> = Self::new();
        let mut node = &mut link;
        loop
            invariant
                iter.obeys_prophetic_iter_laws(),
                iter.decrease() is Some,
                all == taken + iter.remaining(),
                node.0 is None,
                after_borrow(link)@ == taken + final(node)@,
            ensures
                iter.remaining().len() == 0,
            decreases iter.decrease()->0,
        {
            match iter.next() {
                Some(i) => {
                    proof {
                        taken = taken.push(i);
                    }
                    *node = Node::new(i, None).as_link();
                    node = &mut node.0.as_mut().unwrap().next;
                },
                None => {
                    break ;
                },
            }
        }
        link
    }

    /// The list of clones of the values that `iter` yields references to,
    /// in the order in which it yields them.
    pub fn from_iter_cloned<'a, I: Iterator<Item = &'a T>>(iter: I) -> (l: Self) where T: Clone + 'a
        requires
            iter.obeys_prophetic_iter_laws(),
            iter.decrease() is Some,
        ensures
            l@.len() == iter.remaining().len(),
            forall|i: int| 0 <= i < l@.len() ==> cloned(*iter.remaining()[i], #[trigger] l@[i]),
    {
        let mut iter = iter;
        let ghost all = iter.remaining();
        let ghost mut taken: Seq<T> = Seq::empty();
        let mut link: Link<T> = Self::new();
        let mut node = &mut link;
        loop
            invariant
                iter.obeys_prophetic_iter_laws(),
                iter.decrease() is Some,
                all.len() == taken.len() + iter.remaining().len(),
                forall|i: int| 0 <= i < taken.len() ==> cloned(*all[i], #[trigger] taken[i]),
                forall|i: int|
                    0 <= i < iter.remaining().len() ==> all[taken.len() + i]
                        == #[trigger] iter.remaining()[i],
                node.0 is None,
                after_borrow(link)@ == taken + final(node)@,
            ensures
                iter.remaining().len() == 0,
            decreases iter.decrease()->0,
        {
            match iter.next() {
                Some(i) => {
                    let v = i.clone();
                    proof {
                        taken = taken.push(v);
                    }
                    *node = Node::new(v, None).as_link();
                    node = &mut node.0.as_mut().unwrap().next;
                },
                None => {
                    break ;
                },
            }
        }
        link
    }
}

} // verus!
