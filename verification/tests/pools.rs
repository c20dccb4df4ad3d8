use rotator::pool::AddressPool;

#[test]
fn an_address_is_taken_once() {
    let mut pool = AddressPool::new();
    assert!(pool.try_add("2001:db8::1/64".to_string()));
    assert!(!pool.try_add("2001:db8::1/64".to_string()));
    assert_eq!(pool.len(), 1);
    assert_eq!(pool.all(), &vec!["2001:db8::1/64".to_string()]);
}

#[test]
fn addresses_come_back_in_the_order_of_their_arrival() {
    let mut pool = AddressPool::new();
    let offered = ["c/64", "a/64", "d/64", "b/64"];
    for address in offered {
        assert!(pool.try_add(address.to_string()));
    }
    let expected: Vec<String> = offered.iter().map(|address| address.to_string()).collect();
    assert_eq!(pool.all(), &expected);
    assert_eq!(pool.len(), 4);
    assert_eq!(pool.get(0), Some(&"c/64".to_string()));
    assert_eq!(pool.get(3), Some(&"b/64".to_string()));
    assert_eq!(pool.get(4), None);
}

#[test]
fn a_refused_address_changes_nothing() {
    let mut pool = AddressPool::new();
    assert!(pool.try_add("a/64".to_string()));
    assert!(pool.try_add("b/64".to_string()));
    assert!(!pool.try_add("a/64".to_string()));
    assert_eq!(pool.all(), &vec!["a/64".to_string(), "b/64".to_string()]);
}

#[test]
fn a_cleared_pool_is_empty() {
    let mut pool = AddressPool::new();
    assert!(pool.try_add("a/64".to_string()));
    assert!(pool.try_add("b/64".to_string()));
    pool.clear();
    assert_eq!(pool.len(), 0);
    assert!(pool.all().is_empty());
    assert!(pool.try_add("a/64".to_string()));
}

#[test]
fn a_new_pool_is_empty() {
    let pool = AddressPool::new();
    assert_eq!(pool.len(), 0);
    assert!(pool.all().is_empty());
    assert!(!pool.contains(&"a/64".to_string()));
}

#[test]
fn a_pool_finds_what_it_holds() {
    let mut pool = AddressPool::new();
    assert!(pool.try_add("a/64".to_string()));
    assert!(pool.contains(&"a/64".to_string()));
    assert!(!pool.contains(&"a/48".to_string()));
}

#[test]
fn a_copy_of_a_pool_holds_the_same_addresses() {
    let mut pool = AddressPool::new();
    assert!(pool.try_add("a/64".to_string()));
    assert!(pool.try_add("b/64".to_string()));
    let mut copy = pool.duplicate();
    assert_eq!(copy, pool);
    assert!(copy.try_add("c/64".to_string()));
    assert_eq!(pool.len(), 2);
    assert_eq!(copy.len(), 3);
}

#[test]
fn a_pool_hands_out_all_it_holds() {
    let mut pool = AddressPool::new();
    assert!(pool.try_add("b/64".to_string()));
    assert!(pool.try_add("a/64".to_string()));
    assert_eq!(pool.take_all(), vec!["b/64".to_string(), "a/64".to_string()]);
    assert_eq!(pool.len(), 0);
    assert!(pool.take_all().is_empty());
}
