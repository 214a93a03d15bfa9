//! What holds of the list operations taken together, stated over the
//! sequences that the operations' contracts speak of.

use crate::list::Link;
use crate::model;
use vstd::prelude::*;

verus! {

/// Stepping `n` times through a sequence leaves what stands from index `n`
/// on, and nothing once `n` reaches the length.
pub proof fn lemma_advance<T>(s: Seq<T>, n: nat)
    ensures
        model::advance(s, n) == model::suffix(s, if n <= s.len() { n as int } else { s.len() as int }),
    decreases n,
{
    if n == 0 {
        assert(s.skip(0) =~= s);
    } else {
        let t = model::pop_front(s);
        lemma_advance(t, (n - 1) as nat);
        if s.len() > 0 {
            if n <= s.len() {
                assert(t.skip(n - 1) =~= s.skip(n as int));
            } else {
                assert(t.skip(t.len() as int) =~= s.skip(s.len() as int));
            }
        }
    }
}

/// The list built from a sequence holds exactly that sequence, and a list is
/// the list built from its own elements: lists and sequences of elements
/// stand one for one.
pub proof fn law_list_stands_for_its_elements<T>(l: Link<T>, s: Seq<T>)
    ensures
        Link::of(s)@ == s,
        Link::of(l@) == l,
    decreases s.len(),
{
    l.lemma_of_view();
    if s.len() > 0 {
        law_list_stands_for_its_elements(l, s.skip(1));
        assert(seq![s[0]] + s.skip(1) =~= s);
    } else {
        assert(s =~= Seq::empty());
    }
}

/// A full iteration yields as many elements as the list's length says: the
/// step that follows `k` earlier ones yields the element at index `k` for
/// every `k` below the length, and the step that follows as many steps as
/// the length yields nothing.
pub proof fn law_iteration_yields_len_elements<T>(l: Link<T>, k: nat)
    ensures
        k < l@.len() ==> model::front(model::advance(l@, k)) == Some(l@[k as int]),
        k >= l@.len() ==> model::front(model::advance(l@, k)) is None,
{
    lemma_advance(l@, k);
}

/// Pushing at the front and then popping gives back the pushed value and
/// the list as it was, in content and in length.
pub proof fn law_push_then_pop<T>(l: Link<T>, v: T)
    ensures
        model::front(model::push_front(l@, v)) == Some(v),
        model::pop_front(model::push_front(l@, v)) == l@,
        model::pop_front(model::push_front(l@, v)).len() == l@.len(),
{
    assert(model::pop_front(model::push_front(l@, v)) =~= l@);
}

/// Pushing at the back and then popping at the back gives back the pushed
/// value and the list as it was, in content and in length.
pub proof fn law_push_back_then_pop_back<T>(l: Link<T>, v: T)
    ensures
        model::back(model::push_back(l@, v)) == Some(v),
        model::pop_back(model::push_back(l@, v)) == l@,
        model::pop_back(model::push_back(l@, v)).len() == l@.len(),
{
    assert(model::pop_back(model::push_back(l@, v)) =~= l@);
}

/// After an insertion at an index up to the length, that index holds the
/// inserted value, the length has grown by exactly one, and every other
/// element stands where it stood or one place further back.
pub proof fn law_insert_then_index<T>(l: Link<T>, i: int, v: T)
    requires
        0 <= i <= l@.len(),
    ensures
        model::element(model::insert(l@, i, v), i) == Some(v),
        model::insert(l@, i, v).len() == l@.len() + 1,
        forall|j: int| 0 <= j < i ==> model::insert(l@, i, v)[j] == l@[j],
        forall|j: int| i <= j < l@.len() ==> model::insert(l@, i, v)[j + 1] == l@[j],
{
}

/// A deletion at an index within the list returns exactly the element that
/// stood there, shortens the list by exactly one, and keeps every other
/// element, in the order in which they stood.
pub proof fn law_delete_removes_one<T>(l: Link<T>, i: int)
    requires
        0 <= i < l@.len(),
    ensures
        model::element(l@, i) == Some(l@[i]),
        model::delete(l@, i).len() == l@.len() - 1,
        forall|j: int| 0 <= j < i ==> model::delete(l@, i)[j] == l@[j],
        forall|j: int| i <= j < l@.len() - 1 ==> model::delete(l@, i)[j] == l@[j + 1],
{
}

/// Appending is associative on content: appending `b` and then `c` gives
/// the elements that appending `b` with `c` appended gives.
pub proof fn law_concat_associative<T>(a: Link<T>, b: Link<T>, c: Link<T>)
    ensures
        model::concat(model::concat(a@, b@), c@) == model::concat(a@, model::concat(b@, c@)),
{
    assert(model::concat(model::concat(a@, b@), c@) =~= model::concat(a@, model::concat(b@, c@)));
}

/// A write through an index followed by a read at the same index gives the
/// written value; the length and every other element stay.
pub proof fn law_write_then_read<T>(l: Link<T>, i: int, v: T)
    requires
        0 <= i < l@.len(),
    ensures
        model::element(model::replace(l@, i, v), i) == Some(v),
        model::replace(l@, i, v).len() == l@.len(),
        forall|j: int| 0 <= j < l@.len() && j != i ==> model::replace(l@, i, v)[j] == l@[j],
{
}

/// An iteration that takes the elements out of a list leaves it empty once
/// it has made as many steps as the list was long, however many follow.
pub proof fn law_consuming_iteration_empties<T>(l: Link<T>, n: nat)
    requires
        n >= l@.len(),
    ensures
        model::advance(l@, n).len() == 0,
{
    lemma_advance(l@, n);
}

} // verus!
