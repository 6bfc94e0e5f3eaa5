use linked_lists::persistent::List;

#[test]
fn prepend() {
    let mut list = List::new();

    list = list.prepend(1);
    assert_eq!(Some(&1), list.head());

    list = list.prepend(2);
    assert_eq!(Some(&2), list.head());

    list = list.prepend(3);
    assert_eq!(Some(&3), list.head());
}

#[test]
fn tail() {
    let list = List::new().prepend(1).prepend(2).prepend(3);

    let tail = list.tail();

    assert_eq!(Some(&2), tail.head());
}

#[test]
fn third_iter() {
    let list = List::new().prepend(1).prepend(2).prepend(3);

    let mut iter = list.iter();
    assert_eq!(Some(&3), iter.next());
    assert_eq!(Some(&2), iter.next());
    assert_eq!(Some(&1), iter.next());
}

#[test]
fn prepending_leaves_ancestors_unchanged() {
    let ancestor = List::new().prepend(1);
    let middle = ancestor.prepend(2);
    let newest = middle.prepend(3);

    assert_eq!(Some(&3), newest.head());
    assert_eq!(Some(&2), newest.tail().head());
    assert_eq!(Some(&2), middle.head());
    assert_eq!(Some(&1), ancestor.head());
}

#[test]
fn clearing_stops_at_a_shared_suffix() {
    let shared = List::new().prepend(1).prepend(2);
    let mut longer = shared.prepend(3);

    longer.clear();

    assert_eq!(None, longer.head());
    assert_eq!(Some(&2), shared.head());
    let mut iter = shared.iter();
    assert_eq!(Some(&2), iter.next());
    assert_eq!(Some(&1), iter.next());
    assert_eq!(None, iter.next());
}

#[test]
fn persistent_long_chain_tears_down_iteratively() {
    let mut list = List::new();
    let mut v: u32 = 0;
    while v < 100_000 {
        list = list.prepend(v);
        v += 1;
    }

    list.clear();
    assert_eq!(None, list.head());
}
