use soroban_playground::common::Address;

#[test]
fn lib_smoke() {
    let a: Address = 2 + 2;
    assert_eq!(a, 4);
}

#[test]
fn smoke() {
    assert_eq!(2 + 2, 4);
}
