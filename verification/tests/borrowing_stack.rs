use linked_lists::borrowing::List;

#[test]
fn second_values_can_be_pushed_and_popped() {
    let mut list = List::new();

    list.push(0x45);
    list.push(0x90);

    assert_eq!(Some(0x90), list.pop());
    assert_eq!(Some(0x45), list.pop());
}

#[test]
fn second_values_can_be_popped_from_empty_lists() {
    let mut list: List<i32> = List::new();

    assert_eq!(None, list.pop());
}

#[test]
fn values_can_be_peeked() {
    let mut list = List::new();

    list.push('a');
    assert_eq!(Some(&'a'), list.peek());

    list.push('b');
    assert_eq!(Some(&'b'), list.peek());
}

#[test]
fn mutable_peek_allows_changing_values() {
    let mut list = List::new();

    list.push('a');
    list.peek_mut().map(|value| *value = 'b');

    assert_eq!(Some('b'), list.pop());
}

#[test]
fn into_iter() {
    let mut list = List::new();

    list.push(1);
    list.push(2);
    list.push(3);

    let mut iter = list.into_iter();
    assert_eq!(iter.next(), Some(3));
    assert_eq!(iter.next(), Some(2));
    assert_eq!(iter.next(), Some(1));
    assert_eq!(iter.next(), None);
}

#[test]
fn second_iter() {
    let mut list = List::new();

    list.push(1);
    list.push(2);
    list.push(3);

    let mut iter = list.iter();
    assert_eq!(iter.next(), Some(&3));
    assert_eq!(iter.next(), Some(&2));
    assert_eq!(iter.next(), Some(&1));
    assert_eq!(iter.next(), None);
}

#[test]
fn iter_mut() {
    let mut list = List::new();

    list.push(1);
    list.push(2);
    list.push(3);

    let mut iter = list.iter_mut();
    assert_eq!(iter.next(), Some(&mut 3));
    assert_eq!(iter.next(), Some(&mut 2));
    assert_eq!(iter.next(), Some(&mut 1));
}

#[test]
fn mutable_iteration_writes_back() {
    let mut list = List::new();

    list.push(1);
    list.push(2);
    list.push(3);

    let mut iter = list.iter_mut();
    while let Some(value) = iter.next() {
        *value += 10;
    }

    assert_eq!(Some(13), list.pop());
    assert_eq!(Some(12), list.pop());
    assert_eq!(Some(11), list.pop());
    assert_eq!(None, list.pop());
}

#[test]
fn borrowing_popping_reverses_the_pushes() {
    let mut list = List::new();
    let mut v: u64 = 1;
    while v <= 5 {
        list.push(v);
        v += 1;
    }

    let mut expected: u64 = 5;
    while expected >= 1 {
        assert_eq!(Some(expected), list.pop());
        expected -= 1;
    }
    assert_eq!(None, list.pop());
}

#[test]
fn borrowing_long_chain_tears_down_iteratively() {
    let mut list = List::new();
    let mut v: u32 = 0;
    while v < 100_000 {
        list.push(v);
        v += 1;
    }

    list.clear();
    assert_eq!(None, list.pop());
}
