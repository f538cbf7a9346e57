use family_list::iter::{Iter, IterMut};
use family_list::{BoxFamily, Handle, List, Node, RefFamily};

#[test]
fn test_mut_refs() {
    let mut l: List<i32, RefFamily> = List::new();
    let mut n: Node<i32, RefFamily> = Node::new(20);
    let mut n2: Node<i32, RefFamily> = Node::new(30);

    l.push(Handle::stack(&mut n));
    l.push(Handle::stack(&mut n2));

    assert_eq!(*l.pop().unwrap().elem(), 30);
    assert_eq!(*l.pop().unwrap().elem(), 20);
    assert_eq!(l.is_empty(), true);
}

#[test]
fn test_boxed() {
    let mut l: List<i32, BoxFamily> = List::new();
    let n: Node<i32, BoxFamily> = Node::new(20);
    let n2: Node<i32, BoxFamily> = Node::new(30);

    l.push(Handle::heap(n));
    l.push(Handle::heap(n2));

    assert_eq!(*l.pop().unwrap().elem(), 30);
    assert_eq!(*l.pop().unwrap().elem(), 20);
    assert_eq!(l.is_empty(), true);
}

#[test]
fn scenario_stack_borrowed() {
    let mut l: List<i32, RefFamily> = List::new();
    let mut n: Node<i32, RefFamily> = Node::new(20);
    let mut n2: Node<i32, RefFamily> = Node::new(30);

    l.push(Handle::stack(&mut n));
    l.push(Handle::stack(&mut n2));

    assert_eq!(*l.pop().unwrap().elem(), 30);
    assert_eq!(*l.pop().unwrap().elem(), 20);
    assert!(l.is_empty());
    assert!(l.pop().is_none());
}

#[test]
fn scenario_heap_owned() {
    let mut l: List<i32, BoxFamily> = List::new();

    l.push(Handle::heap(Node::new(20)));
    l.push(Handle::heap(Node::new(30)));

    assert_eq!(*l.pop().unwrap().elem(), 30);
    assert_eq!(*l.pop().unwrap().elem(), 20);
    assert!(l.is_empty());
    assert!(l.pop().is_none());
}

#[test]
fn lifo_order_heap() {
    let mut l: List<u64, BoxFamily> = List::new();
    for v in [1u64, 2, 3, 4, 5] {
        l.push(Handle::heap(Node::new(v)));
    }
    for expected in [5u64, 4, 3, 2, 1] {
        assert_eq!(*l.pop().unwrap().elem(), expected);
    }
    assert!(l.pop().is_none());
}

#[test]
fn lifo_order_stack() {
    let mut l: List<u64, RefFamily> = List::new();
    let mut n1: Node<u64, RefFamily> = Node::new(1);
    let mut n2: Node<u64, RefFamily> = Node::new(2);
    let mut n3: Node<u64, RefFamily> = Node::new(3);
    l.push(Handle::stack(&mut n1));
    l.push(Handle::stack(&mut n2));
    l.push(Handle::stack(&mut n3));
    assert_eq!(*l.pop().unwrap().elem(), 3);
    assert_eq!(*l.pop().unwrap().elem(), 2);
    assert_eq!(*l.pop().unwrap().elem(), 1);
    assert!(l.pop().is_none());
}

#[test]
fn emptiness_tracks_pop() {
    let mut l: List<i32, BoxFamily> = List::new();
    assert!(l.is_empty());
    l.push(Handle::heap(Node::new(7)));
    assert!(!l.is_empty());
    l.push(Handle::heap(Node::new(8)));
    assert!(!l.is_empty());
    assert!(l.pop().is_some());
    assert!(!l.is_empty());
    assert!(l.pop().is_some());
    assert!(l.is_empty());
    assert!(l.pop().is_none());
    assert!(l.is_empty());
}

#[test]
fn popped_node_is_detached() {
    let mut l: List<i32, BoxFamily> = List::new();
    l.push(Handle::heap(Node::new(1)));
    l.push(Handle::heap(Node::new(2)));
    l.push(Handle::heap(Node::new(3)));

    // The popped head moves to a second list without dragging its old tail.
    let h = l.pop().unwrap();
    let mut other: List<i32, BoxFamily> = List::new();
    other.push(h);

    let mut it = other.iter();
    assert_eq!(it.next(), Some(&3));
    assert_eq!(it.next(), None);

    let mut it = l.iter();
    assert_eq!(it.next(), Some(&2));
    assert_eq!(it.next(), Some(&1));
    assert_eq!(it.next(), None);
}

#[test]
fn detached_across_strategies_stack() {
    let mut a: Node<i32, RefFamily> = Node::new(10);
    let mut b: Node<i32, RefFamily> = Node::new(11);
    let mut l: List<i32, RefFamily> = List::new();
    l.push(Handle::stack(&mut a));
    l.push(Handle::stack(&mut b));

    let h = l.pop().unwrap();
    let mut other: List<i32, RefFamily> = List::new();
    other.push(h);

    assert_eq!(*other.pop().unwrap().elem(), 11);
    assert!(other.is_empty());
    assert_eq!(*l.pop().unwrap().elem(), 10);
    assert!(l.is_empty());
}

#[test]
fn iteration_yields_all_then_nothing() {
    let mut l: List<i32, BoxFamily> = List::new();
    l.push(Handle::heap(Node::new(1)));
    l.push(Handle::heap(Node::new(2)));
    l.push(Handle::heap(Node::new(3)));

    let mut it: Iter<i32, BoxFamily> = l.iter();
    assert_eq!(it.next(), Some(&3));
    assert_eq!(it.next(), Some(&2));
    assert_eq!(it.next(), Some(&1));
    assert_eq!(it.next(), None);
    assert_eq!(it.next(), None);
}

#[test]
fn iteration_empty_list() {
    let l: List<i32, BoxFamily> = List::new();
    let mut it = l.iter();
    assert_eq!(it.next(), None);
    assert_eq!(it.next(), None);
}

#[test]
fn mutable_iteration_counts_and_exhausts() {
    let mut l: List<i32, BoxFamily> = List::new();
    l.push(Handle::heap(Node::new(1)));
    l.push(Handle::heap(Node::new(2)));

    let mut it: IterMut<i32, BoxFamily> = l.iter_mut();
    assert_eq!(it.next().copied(), Some(2));
    assert_eq!(it.next().copied(), Some(1));
    assert!(it.next().is_none());
    assert!(it.next().is_none());
}

#[test]
fn mutation_through_iter_mut_is_visible() {
    let mut l: List<i32, BoxFamily> = List::new();
    l.push(Handle::heap(Node::new(1)));
    l.push(Handle::heap(Node::new(2)));
    l.push(Handle::heap(Node::new(3)));

    {
        let mut it = l.iter_mut();
        it.next();
        if let Some(e) = it.next() {
            *e = 99;
        }
    }

    let mut it = l.iter();
    assert_eq!(it.next(), Some(&3));
    assert_eq!(it.next(), Some(&99));
    assert_eq!(it.next(), Some(&1));
    assert_eq!(it.next(), None);
}

#[test]
fn mutation_through_iter_mut_stack() {
    let mut n1: Node<i32, RefFamily> = Node::new(5);
    let mut n2: Node<i32, RefFamily> = Node::new(6);
    let mut l: List<i32, RefFamily> = List::new();
    l.push(Handle::stack(&mut n1));
    l.push(Handle::stack(&mut n2));

    {
        let mut it = l.iter_mut();
        if let Some(e) = it.next() {
            *e = 60;
        }
    }

    assert_eq!(*l.pop().unwrap().elem(), 60);
    assert_eq!(*l.pop().unwrap().elem(), 5);
}

#[test]
fn node_element_access() {
    let mut n: Node<i32, BoxFamily> = Node::new(41);
    assert_eq!(*n.elem(), 41);
    *n.elem_mut() = 42;
    assert_eq!(*n.elem(), 42);
    assert_eq!(n.into_inner(), 42);
}

#[test]
fn clear_releases_all() {
    let mut l: List<i32, BoxFamily> = List::new();
    for v in [1i32, 2, 3, 4] {
        l.push(Handle::heap(Node::new(v)));
    }
    assert!(!l.is_empty());
    l.clear();
    assert!(l.is_empty());
    assert!(l.pop().is_none());
    l.push(Handle::heap(Node::new(9)));
    assert_eq!(*l.pop().unwrap().elem(), 9);
}
