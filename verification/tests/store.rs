use sayable::store::IdentifierStore;

#[test]
fn identifiers_count_up_from_zero() {
    let mut store = IdentifierStore::new();
    assert_eq!(store.next(), "0");
    assert_eq!(store.next(), "1");
    assert_eq!(store.next(), "2");
}

#[test]
fn identifiers_are_written_in_decimal() {
    let mut store = IdentifierStore::new();
    let mut last = String::new();
    for _ in 0..124 {
        last = store.next();
    }
    assert_eq!(last, "123");
}

#[test]
fn back_takes_the_last_identifier_back() {
    let mut store = IdentifierStore::new();
    store.next();
    store.next();
    store.back();
    assert_eq!(store.next(), "1");
}

#[test]
fn back_stops_at_zero() {
    let mut store = IdentifierStore::new();
    store.back();
    store.back();
    assert_eq!(store.next(), "0");
    store.back();
    store.back();
    assert_eq!(store.next(), "0");
}

#[test]
fn reset_starts_over() {
    let mut store = IdentifierStore::new();
    store.next();
    store.next();
    store.next();
    store.reset();
    assert_eq!(store.next(), "0");
}

#[test]
fn counter_is_handed_out_less_taken_back() {
    let mut store = IdentifierStore::new();
    store.next();
    store.next();
    store.back();
    store.next();
    store.next();
    store.back();
    store.back();
    assert_eq!(store.next(), "1");
}

#[test]
fn default_store_starts_at_zero() {
    let mut store = IdentifierStore::default();
    assert_eq!(store.next(), "0");
}

#[test]
fn identifiers_carry_over_nines() {
    let mut store = IdentifierStore::new();
    let mut ids = vec![];
    for _ in 0..1002 {
        ids.push(store.next());
    }
    for (number, id) in ids.iter().enumerate() {
        assert_eq!(*id, number.to_string());
    }
    assert_eq!(ids[9], "9");
    assert_eq!(ids[10], "10");
    assert_eq!(ids[99], "99");
    assert_eq!(ids[100], "100");
    assert_eq!(ids[999], "999");
    assert_eq!(ids[1000], "1000");
}

#[test]
fn back_borrows_over_zeros() {
    let mut store = IdentifierStore::new();
    for _ in 0..1000 {
        store.next();
    }
    store.back();
    assert_eq!(store.next(), "999");
    for expected in (0..1000).rev() {
        store.back();
        let id = store.next();
        assert_eq!(id, expected.to_string());
        store.back();
    }
    store.back();
    assert_eq!(store.next(), "0");
}
