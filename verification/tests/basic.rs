use link::{Link, Node};

fn list_of(items: Vec<isize>) -> Link<isize> {
    Link::from_iter(items.into_iter())
}

fn items_of(l: &Link<isize>) -> Vec<isize> {
    l.iter().copied().collect()
}

#[test]
fn test1() {
    let mut a: Link<isize> = list_of(vec![1, 2, 3]);
    let b = a.split_off(1);
    assert_eq!(a, list_of(vec![1, 2]));
    assert_eq!(b, list_of(vec![3]));
}

#[test]
fn new_list_is_empty() {
    let l: Link<isize> = Link::new();
    assert!(l.empty());
    assert_eq!(l.len(), 0);
    assert_eq!(format!("{:?}", l), "[]");
    assert_eq!(l.front(), None);
    assert_eq!(l.back(), None);
}

#[test]
fn empty_tells_whether_there_is_an_element() {
    let mut l: Link<isize> = Link::new();
    assert!(l.empty());
    l.push(1);
    assert!(!l.empty());
    l.pop();
    assert!(l.empty());
}

#[test]
fn len_counts_the_elements() {
    assert_eq!(list_of(vec![]).len(), 0);
    assert_eq!(list_of(vec![7]).len(), 1);
    assert_eq!(list_of(vec![1, 2, 3, 4, 5]).len(), 5);
}

#[test]
fn len_is_the_number_of_iterated_elements() {
    for n in 0..6 {
        let l = list_of((0..n).collect());
        assert_eq!(l.len(), l.iter().count());
        assert_eq!(l.len(), n as usize);
        let len = l.len();
        assert_eq!(l.into_iter().count(), len);
    }
}

#[test]
fn push_places_in_front() {
    let mut l = list_of(vec![0, 1, 2]);
    l.push(-1);
    assert_eq!(format!("{:?}", l), "[-1, 0, 1, 2]");
    assert_eq!(l.len(), 4);
}

#[test]
fn pop_takes_the_first() {
    let mut l = list_of(vec![0, 1, 2]);
    let v = l.pop();
    assert_eq!(format!("{:?}", l), "[1, 2]");
    assert_eq!(v, Some(0));
}

#[test]
fn pop_on_empty_gives_none() {
    let mut l: Link<isize> = Link::new();
    assert_eq!(l.pop(), None);
    assert!(l.empty());
}

#[test]
fn push_then_pop_is_identity() {
    let mut l = list_of(vec![4, 5, 6]);
    l.push(9);
    assert_eq!(l.pop(), Some(9));
    assert_eq!(items_of(&l), vec![4, 5, 6]);
    assert_eq!(l.len(), 3);
    let mut e: Link<isize> = Link::new();
    e.push(1);
    assert_eq!(e.pop(), Some(1));
    assert!(e.empty());
}

#[test]
fn push_serves_last_in_first_out() {
    let mut l: Link<isize> = Link::new();
    l.push(1);
    l.push(2);
    l.push(3);
    assert_eq!(l.pop(), Some(3));
    assert_eq!(l.pop(), Some(2));
    assert_eq!(l.pop(), Some(1));
    assert_eq!(l.pop(), None);
}

#[test]
fn push_back_appends() {
    let mut l: Link<isize> = Link::new();
    l.push_back(1);
    assert_eq!(items_of(&l), vec![1]);
    l.push_back(2);
    l.push_back(3);
    assert_eq!(items_of(&l), vec![1, 2, 3]);
}

#[test]
fn pop_back_takes_the_last() {
    let mut l = list_of(vec![0, 1, 2]);
    let v = l.pop_back();
    assert_eq!(format!("{:?}", l), "[0, 1]");
    assert_eq!(v, Some(2));
}

#[test]
fn pop_back_down_to_empty() {
    let mut l = list_of(vec![1, 2]);
    assert_eq!(l.pop_back(), Some(2));
    assert_eq!(l.pop_back(), Some(1));
    assert!(l.empty());
    assert_eq!(l.pop_back(), None);
    assert!(l.empty());
}

#[test]
fn push_back_then_pop_back_is_identity() {
    let mut l = list_of(vec![4, 5, 6]);
    l.push_back(9);
    assert_eq!(l.pop_back(), Some(9));
    assert_eq!(items_of(&l), vec![4, 5, 6]);
    assert_eq!(l.len(), 3);
    let mut e: Link<isize> = Link::new();
    e.push_back(1);
    assert_eq!(e.pop_back(), Some(1));
    assert!(e.empty());
}

#[test]
fn front_and_back_read_the_ends() {
    let l = list_of(vec![0, 1, 2]);
    assert_eq!(l.front(), Some(&0));
    assert_eq!(l.back(), Some(&2));
    let one = list_of(vec![5]);
    assert_eq!(one.front(), Some(&5));
    assert_eq!(one.back(), Some(&5));
}

#[test]
fn front_mut_and_back_mut_write_the_ends() {
    let mut l = list_of(vec![0, 1, 2]);
    *l.front_mut().unwrap() = 10;
    *l.back_mut().unwrap() = 30;
    assert_eq!(items_of(&l), vec![10, 1, 30]);
    let mut e: Link<isize> = Link::new();
    assert!(e.front_mut().is_none());
    assert!(e.back_mut().is_none());
}

#[test]
fn insert_in_the_middle() {
    let mut l = list_of(vec![0, 1, 2]);
    let v = l.insert(2, 3);
    assert_eq!(v, Some(&3));
    assert_eq!(format!("{:?}", l), "[0, 1, 3, 2]");
}

#[test]
fn insert_at_zero_is_push() {
    let mut l = list_of(vec![1, 2]);
    assert_eq!(l.insert(0, 0), Some(&0));
    assert_eq!(items_of(&l), vec![0, 1, 2]);
    let mut e: Link<isize> = Link::new();
    assert_eq!(e.insert(0, 7), Some(&7));
    assert_eq!(items_of(&e), vec![7]);
}

#[test]
fn insert_at_len_appends() {
    let mut l = list_of(vec![1, 2]);
    assert_eq!(l.insert(2, 3), Some(&3));
    assert_eq!(items_of(&l), vec![1, 2, 3]);
}

#[test]
fn insert_past_len_fails_and_changes_nothing() {
    let mut l = list_of(vec![1, 2]);
    assert_eq!(l.insert(3, 9), None);
    assert_eq!(items_of(&l), vec![1, 2]);
    let mut e: Link<isize> = Link::new();
    assert_eq!(e.insert(1, 9), None);
    assert!(e.empty());
}

#[test]
fn insert_then_index_gives_the_value() {
    for i in 0..4 {
        let mut l = list_of(vec![10, 20, 30, 40]);
        assert_eq!(l.insert(i, 99), Some(&99));
        assert_eq!(l[i], 99);
        assert_eq!(l.len(), 5);
    }
}

#[test]
fn delete_in_the_middle() {
    let mut l = list_of(vec![0, 1, 2]);
    let v = l.delete(1);
    assert_eq!(v, Some(1));
    assert_eq!(format!("{:?}", l), "[0, 2]");
}

#[test]
fn delete_at_zero_is_pop() {
    let mut l = list_of(vec![0, 1, 2]);
    assert_eq!(l.delete(0), Some(0));
    assert_eq!(items_of(&l), vec![1, 2]);
}

#[test]
fn delete_past_the_end_fails_and_changes_nothing() {
    let mut l = list_of(vec![0, 1, 2]);
    assert_eq!(l.delete(3), None);
    assert_eq!(l.delete(7), None);
    assert_eq!(items_of(&l), vec![0, 1, 2]);
    let mut e: Link<isize> = Link::new();
    assert_eq!(e.delete(0), None);
    assert_eq!(e.delete(1), None);
}

#[test]
fn delete_removes_exactly_one_and_keeps_the_order() {
    for i in 0..4 {
        let mut l = list_of(vec![10, 20, 30, 40]);
        let mut expected = vec![10, 20, 30, 40];
        let gone = expected.remove(i);
        assert_eq!(l.delete(i), Some(gone));
        assert_eq!(items_of(&l), expected);
        assert_eq!(l.len(), 3);
    }
}

#[test]
fn get_reaches_a_node_by_index() {
    let l = list_of(vec![1, 2, 3]);
    assert_eq!(l.get(0).unwrap().value, 1);
    assert_eq!(l.get(2).unwrap().value, 3);
    assert!(l.get(3).is_none());
    let e: Link<isize> = Link::new();
    assert!(e.get(0).is_none());
}

#[test]
fn get_mut_changes_a_node_by_index() {
    let mut l = list_of(vec![1, 2, 3]);
    l.get_mut(1).unwrap().value = 20;
    assert_eq!(items_of(&l), vec![1, 20, 3]);
    assert!(l.get_mut(3).is_none());
    assert_eq!(items_of(&l), vec![1, 20, 3]);
}

#[test]
fn concat_appends_the_other_list() {
    let mut a = list_of(vec![1, 2]);
    let b = list_of(vec![3, 4]);
    a.concat(b);
    assert_eq!(format!("{:?}", a), "[1, 2, 3, 4]");
}

#[test]
fn concat_with_empty_lists() {
    let mut a: Link<isize> = Link::new();
    a.concat(list_of(vec![1, 2]));
    assert_eq!(items_of(&a), vec![1, 2]);
    a.concat(Link::new());
    assert_eq!(items_of(&a), vec![1, 2]);
}

#[test]
fn concat_is_associative() {
    let mut left = list_of(vec![1, 2]);
    left.concat(list_of(vec![3]));
    left.concat(list_of(vec![4, 5]));
    let mut tail = list_of(vec![3]);
    tail.concat(list_of(vec![4, 5]));
    let mut right = list_of(vec![1, 2]);
    right.concat(tail);
    assert_eq!(left, right);
    assert_eq!(items_of(&left), vec![1, 2, 3, 4, 5]);
}

#[test]
fn split_off_at_the_first_index() {
    let mut a = list_of(vec![1, 2, 3]);
    let b = a.split_off(0);
    assert_eq!(a, list_of(vec![1]));
    assert_eq!(b, list_of(vec![2, 3]));
}

#[test]
fn split_off_at_the_last_index() {
    let mut a = list_of(vec![1, 2, 3]);
    let b = a.split_off(2);
    assert_eq!(a, list_of(vec![1, 2, 3]));
    assert_eq!(b, list_of(vec![]));
    assert!(b.empty());
}

#[test]
fn split_off_past_the_end_changes_nothing() {
    let mut a = list_of(vec![1, 2, 3]);
    let b = a.split_off(3);
    assert_eq!(items_of(&a), vec![1, 2, 3]);
    assert!(b.empty());
    let mut e: Link<isize> = Link::new();
    assert!(e.split_off(0).empty());
    assert!(e.empty());
}

#[test]
fn take_moves_the_chain_out() {
    let mut a = list_of(vec![0, 1, 2]);
    let b = a.take();
    assert_eq!(format!("{:?}", a), "[]");
    assert_eq!(format!("{:?}", b), "[0, 1, 2]");
}

#[test]
fn from_elem_repeats_the_value() {
    let a: Link<isize> = Link::from_elem(-1, 3);
    assert_eq!(format!("{:?}", a), "[-1, -1, -1]");
    let b: Link<isize> = Link::from_elem(-1, 0);
    assert_eq!(format!("{:?}", b), "[]");
    assert!(b.empty());
}

#[test]
fn from_iter_keeps_the_order() {
    let a: Link<isize> = Link::from_iter(std::iter::repeat(-1).take(3));
    assert_eq!(format!("{:?}", a), "[-1, -1, -1]");
    let b: Link<isize> = Link::from_iter(vec![3, 1, 2].into_iter());
    assert_eq!(items_of(&b), vec![3, 1, 2]);
    let c: Link<isize> = Link::from_iter(Vec::new().into_iter());
    assert!(c.empty());
}

#[test]
fn from_iter_cloned_clones_each_value() {
    let v = vec![-1; 3];
    let a: Link<isize> = Link::from_iter_cloned(v.iter());
    assert_eq!(format!("{:?}", a), "[-1, -1, -1]");
    let w = vec![String::from("a"), String::from("b")];
    let b: Link<String> = Link::from_iter_cloned(w.iter());
    assert_eq!(format!("{:?}", b), "[\"a\", \"b\"]");
    assert_eq!(w.len(), 2);
}

#[test]
fn debug_form_is_a_bracketed_list() {
    assert_eq!(format!("{:?}", list_of(vec![1, 2, 3])), "[1, 2, 3]");
    assert_eq!(format!("{:?}", list_of(vec![5])), "[5]");
    assert_eq!(format!("{:?}", list_of(vec![])), "[]");
}

#[test]
fn node_as_link_starts_at_the_node() {
    let l = list_of(vec![1, 2, 3, 4]);
    let a: Node<isize> = (**l.get(1).unwrap()).clone();
    assert_eq!(a.as_link(), list_of(vec![2, 3, 4]));
}

#[test]
fn node_next_is_the_following_node() {
    let l = list_of(vec![1, 2, 3]);
    let node = l.get(1).unwrap();
    assert_eq!(node.next().unwrap().value, 3);
    assert!(l.get(2).unwrap().next().is_none());
}

#[test]
fn node_skip_walks_forward() {
    let l = list_of(vec![1, 2, 3, 4]);
    let mut node: &Node<isize> = l.get(0).unwrap();
    assert_eq!(node.value, 1);
    node = node.skip(1).unwrap();
    assert_eq!(node.value, 2);
    node = node.skip(2).unwrap();
    assert_eq!(node.value, 4);
    assert_eq!(node.skip(0).unwrap().value, 4);
    assert!(node.skip(1).is_none());
}

#[test]
fn node_next_mut_changes_the_following_node() {
    let mut l = list_of(vec![1, 2, 3]);
    let node = l.get_mut(1).unwrap();
    node.next_mut().unwrap().value = 4;
    assert_eq!(l, list_of(vec![1, 2, 4]));
    assert!(l.get_mut(2).unwrap().next_mut().is_none());
}

#[test]
fn node_skip_mut_changes_a_later_node() {
    let mut l = list_of(vec![1, 2, 3, 4]);
    let node: &mut Node<isize> = l.get_mut(1).unwrap();
    node.skip_mut(1).unwrap().value = 5;
    assert_eq!(l, list_of(vec![1, 2, 5, 4]));
    assert!(l.get_mut(1).unwrap().skip_mut(3).is_none());
    assert_eq!(l, list_of(vec![1, 2, 5, 4]));
}

#[test]
fn node_insert_next_puts_a_node_behind() {
    let mut l = list_of(vec![1, 2, 3]);
    let node = l.get_mut(1).unwrap();
    let new = node.insert_next(4);
    assert_eq!(new.value, 4);
    assert_eq!(l, list_of(vec![1, 2, 4, 3]));
}

#[test]
fn node_pop_next_takes_the_node_behind() {
    let mut l = list_of(vec![1, 2, 3]);
    let node = l.get_mut(1).unwrap();
    assert_eq!(node.pop_next(), Some(3));
    assert_eq!(l, list_of(vec![1, 2]));
    assert_eq!(l.get_mut(1).unwrap().pop_next(), None);
    assert_eq!(l, list_of(vec![1, 2]));
}
