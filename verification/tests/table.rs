use move_analyzer::syntax::{NumericalAddress, Symbol};
use move_analyzer::table::{AddressTable, Table};

#[test]
fn a_table_finds_what_was_put_in() {
    let mut t: Table<u64> = Table::new();
    assert_eq!(t.len(), 0);
    assert!(!t.contains_key(&Symbol::from("a")));
    t.insert(Symbol::from("a"), 1);
    t.insert(Symbol::from("b"), 2);
    assert_eq!(t.get(&Symbol::from("a")), Some(&1));
    assert_eq!(t.get(&Symbol::from("b")), Some(&2));
    assert_eq!(t.get(&Symbol::from("c")), None);
    assert!(t.contains_key(&Symbol::from("b")));
    assert_eq!(t.len(), 2);
}

#[test]
fn a_name_that_comes_again_keeps_its_place_and_gets_the_new_value() {
    let mut t: Table<u64> = Table::new();
    t.insert(Symbol::from("a"), 1);
    t.insert(Symbol::from("b"), 2);
    t.insert(Symbol::from("a"), 3);
    assert_eq!(t.len(), 2);
    assert_eq!(t.key_at(0).as_str(), "a");
    assert_eq!(t.key_at(1).as_str(), "b");
    assert_eq!(t.value_at(0), &3);
    assert_eq!(t.value_at(1), &2);
    assert_eq!(t.get(&Symbol::from("a")), Some(&3));
}

#[test]
fn a_value_is_changed_in_place() {
    let mut t: Table<Vec<u64>> = Table::new();
    t.insert(Symbol::from("a"), vec![1]);
    if let Some(v) = t.get_mut(&Symbol::from("a")) {
        v.push(2);
    }
    assert_eq!(t.get(&Symbol::from("a")), Some(&vec![1, 2]));
    assert!(t.get_mut(&Symbol::from("b")).is_none());
}

#[test]
fn an_address_table_finds_what_was_put_in() {
    let one = NumericalAddress { value: 1 };
    let two = NumericalAddress { value: 2 };
    let big = NumericalAddress { value: u128::MAX };
    let mut t: AddressTable<&str> = AddressTable::new();
    assert!(!t.contains_key(one));
    t.insert(one, "one");
    t.insert(big, "big");
    t.insert(one, "uno");
    assert_eq!(t.get(one), Some(&"uno"));
    assert_eq!(t.get(big), Some(&"big"));
    assert_eq!(t.get(two), None);
    if let Some(v) = t.get_mut(big) {
        *v = "max";
    }
    assert_eq!(t.get(big), Some(&"max"));
}
