use rc_async::add;

#[test]
fn it_works() {
    let result = add(2, 2);
    assert_eq!(result, 4);
}

#[test]
fn add_at_the_edges() {
    assert_eq!(add(0, 0), 0);
    assert_eq!(add(usize::MAX, 0), usize::MAX);
    assert_eq!(add(usize::MAX - 1, 1), usize::MAX);
}
