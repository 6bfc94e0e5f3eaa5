use linked_lists::exclusive::List;

#[test]
fn first_values_can_be_pushed_and_popped() {
    let mut list = List::new();

    list.push(0x45);
    list.push(0x90);

    assert_eq!(Some(0x90), list.pop());
    assert_eq!(Some(0x45), list.pop());
}

#[test]
fn first_values_can_be_popped_from_empty_lists() {
    let mut list = List::new();

    assert_eq!(None, list.pop());
}

#[test]
fn popping_reverses_the_pushes() {
    let mut list = List::new();
    let mut v: i32 = 1;
    while v <= 5 {
        list.push(v);
        v += 1;
    }

    let mut expected: i32 = 5;
    while expected >= 1 {
        assert_eq!(Some(expected), list.pop());
        expected -= 1;
    }
    assert_eq!(None, list.pop());
}

#[test]
fn long_chain_tears_down_iteratively() {
    let mut list = List::new();
    let mut v: i32 = 0;
    while v < 100_000 {
        list.push(v);
        v += 1;
    }

    list.clear();
    assert_eq!(None, list.pop());
}
