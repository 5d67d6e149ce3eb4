#[test]
fn construct_dummy() {
    assert_eq!(1, 1);
}

#[test]
fn traits_dummy() {
    assert_eq!(1, 1);
}
