use std::cell::Cell;

use const_map::ConstMap;

fn counting_from(start: u32, step: u32) -> impl Fn() -> u32 {
    let next = Cell::new(start);
    move || {
        let v = next.get();
        next.set(v + step);
        v
    }
}

#[test]
fn names_are_updated_in_place() {
    let mut map: ConstMap<&'static str, usize, 3> = ConstMap::new(["Alice", "Bob", "Carol"], || 0);
    assert_eq!(map.entries(), vec![(&"Alice", &0), (&"Bob", &0), (&"Carol", &0)]);

    *map.get_mut("Alice").unwrap() = 1;
    *map.get_mut("Bob").unwrap() = 2;
    *map.get_mut("Carol").unwrap() = 3;

    assert_eq!(map.entries(), vec![(&"Alice", &1), (&"Bob", &2), (&"Carol", &3)]);
    assert_eq!(map.get("Alice"), Some(&1));
    assert_eq!(map.get("Bob"), Some(&2));
    assert_eq!(map.get("Carol"), Some(&3));
    assert_eq!(map.get("Dave"), None);
}

#[test]
fn duplicate_keys_resolve_to_first() {
    let map: ConstMap<&'static str, u32, 3> = ConstMap::new(["a", "a", "b"], counting_from(10, 10));
    assert_eq!(map.get("a"), Some(&10));
    assert_eq!(map.get("b"), Some(&30));
    assert_eq!(map.get_index("a"), Some(0));
    assert_eq!(map.get_index("b"), Some(2));
    assert_eq!(map.entries(), vec![(&"a", &10), (&"a", &20), (&"b", &30)]);
    let shown = format!("{:?}", map.entries());
    assert!(shown.contains("20"));
}

#[test]
fn stored_keys_find_their_own_or_earlier_slot() {
    let keys: [u32; 5] = [5, 7, 5, 9, 7];
    let map: ConstMap<u32, u32, 5> = ConstMap::new(keys, counting_from(100, 1));
    let expected: [u32; 5] = [100, 101, 100, 103, 101];
    for i in 0..5 {
        assert_eq!(map.get(&keys[i]), Some(&expected[i]));
    }
    assert_eq!(map.entries().len(), 5);
    assert_eq!(*map.entries()[2].1, 102);
}

#[test]
fn generator_runs_once_per_key_in_order() {
    let calls = Cell::new(0u32);
    let map: ConstMap<char, u32, 4> = ConstMap::new(['w', 'x', 'y', 'z'], || {
        calls.set(calls.get() + 1);
        calls.get()
    });
    assert_eq!(calls.get(), 4);
    assert_eq!(map.get(&'w'), Some(&1));
    assert_eq!(map.get(&'x'), Some(&2));
    assert_eq!(map.get(&'y'), Some(&3));
    assert_eq!(map.get(&'z'), Some(&4));
}

#[test]
fn absent_keys_are_not_found() {
    let mut map: ConstMap<u64, u8, 3> = ConstMap::new([1, 2, 3], || 7);
    assert_eq!(map.get(&0), None);
    assert_eq!(map.get(&4), None);
    assert_eq!(map.get_index(&4), None);
    assert!(map.get_mut(&0).is_none());
    assert!(map.get_mut(&u64::MAX).is_none());
    assert_eq!(map.entries(), vec![(&1, &7), (&2, &7), (&3, &7)]);
}

#[test]
fn write_through_get_mut_then_read() {
    let mut map: ConstMap<i64, String, 3> = ConstMap::new([-1, 0, 1], String::new);
    map.get_mut(&0).unwrap().push_str("zero");
    *map.get_mut(&-1).unwrap() = String::from("minus one");
    assert_eq!(map.get(&0).map(|s| s.as_str()), Some("zero"));
    assert_eq!(map.get(&-1).map(|s| s.as_str()), Some("minus one"));
    assert_eq!(map.get(&1).map(|s| s.as_str()), Some(""));
}

#[test]
fn write_to_duplicate_key_reaches_first_slot() {
    let mut map: ConstMap<u8, u8, 3> = ConstMap::new([4, 4, 6], || 0);
    *map.get_mut(&4).unwrap() = 9;
    assert_eq!(map.get(&4), Some(&9));
    assert_eq!(map.entries(), vec![(&4, &9), (&4, &0), (&6, &0)]);
}

#[test]
fn borrowed_and_owned_queries_agree() {
    let keys: [String; 3] = [String::from("red"), String::from("green"), String::from("red")];
    let map: ConstMap<String, u32, 3> = ConstMap::new(keys, counting_from(1, 1));
    let owned = String::from("red");
    assert_eq!(map.get("red"), Some(&1));
    assert_eq!(map.get(&owned), map.get("red"));
    assert_eq!(map.get_index(&owned), Some(0));
    assert_eq!(map.get(&String::from("green")), map.get("green"));
    assert_eq!(map.get("green"), Some(&2));
    assert_eq!(map.get("blue"), None);
    assert_eq!(map.get(&String::from("blue")), None);
    assert_eq!(map.get("Red"), None);
}

#[test]
fn str_keys_take_str_or_ref_queries() {
    let map: ConstMap<&'static str, u32, 2> = ConstMap::new(["héllo", "wörld"], counting_from(1, 1));
    assert_eq!(map.get("wörld"), Some(&2));
    assert_eq!(map.get(&"héllo"), Some(&1));
    assert_eq!(map.get("hello"), None);
    assert_eq!(map.get("héll"), None);
    assert_eq!(map.get(""), None);
}

#[test]
fn empty_map_finds_nothing() {
    let mut map: ConstMap<u64, u8, 0> = ConstMap::new([], || 1);
    assert_eq!(map.get(&0), None);
    assert_eq!(map.get_index(&0), None);
    assert!(map.get_mut(&0).is_none());
    assert!(map.entries().is_empty());
}

#[test]
fn empty_string_key_is_a_key() {
    let map: ConstMap<String, u8, 2> = ConstMap::new([String::new(), String::from("x")], || 3);
    assert_eq!(map.get(""), Some(&3));
    assert_eq!(map.get_index(""), Some(0));
    assert_eq!(map.get_index("x"), Some(1));
}
