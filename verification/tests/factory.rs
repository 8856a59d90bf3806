use rust_plugin_1::factory::{descriptor_index, find_plugin, ids_unique, is_plugin_factory_id};

fn ids(names: &[&str]) -> Vec<Vec<u8>> {
    names.iter().map(|n| n.as_bytes().to_vec()).collect()
}

#[test]
fn factory_id_is_recognised() {
    assert!(is_plugin_factory_id(b"clap.plugin-factory"));
}

#[test]
fn other_factory_ids_are_refused() {
    assert!(!is_plugin_factory_id(b""));
    assert!(!is_plugin_factory_id(b"clap.plugin-factor"));
    assert!(!is_plugin_factory_id(b"clap.plugin-factoryx"));
    assert!(!is_plugin_factory_id(b"clap.preset-discovery-factory/2"));
    assert!(!is_plugin_factory_id(b"Clap.plugin-factory"));
}

#[test]
fn descriptor_index_selects_within_range() {
    assert_eq!(descriptor_index(1, 0), Some(0));
    assert_eq!(descriptor_index(1, 1), None);
    assert_eq!(descriptor_index(3, 2), Some(2));
    assert_eq!(descriptor_index(0, 0), None);
    assert_eq!(descriptor_index(5, u32::MAX), None);
}

#[test]
fn the_gain_plugin_is_found_by_its_id() {
    let list = ids(&["org.free-audio.clap-rust-gain"]);
    assert_eq!(find_plugin(&list, b"org.free-audio.clap-rust-gain"), Some(0));
}

#[test]
fn unknown_plugin_ids_are_not_found() {
    let list = ids(&["org.free-audio.clap-rust-gain"]);
    assert_eq!(find_plugin(&list, b"org.free-audio.clap-rust-gai"), None);
    assert_eq!(find_plugin(&list, b""), None);
    assert_eq!(find_plugin(&Vec::new(), b"org.free-audio.clap-rust-gain"), None);
}

#[test]
fn the_first_of_two_equal_ids_is_found() {
    let list = ids(&["a", "b", "b", "c"]);
    assert_eq!(find_plugin(&list, b"b"), Some(1));
    assert_eq!(find_plugin(&list, b"c"), Some(3));
}

#[test]
fn distinct_ids_are_each_found_at_their_own_position() {
    let list = ids(&["one", "two", "three"]);
    assert!(ids_unique(&list));
    for (k, id) in list.iter().enumerate() {
        assert_eq!(find_plugin(&list, id), Some(k));
    }
}

#[test]
fn duplicate_ids_are_detected() {
    assert!(!ids_unique(&ids(&["x", "y", "x"])));
    assert!(!ids_unique(&ids(&["x", "x"])));
    assert!(ids_unique(&ids(&["org.free-audio.clap-rust-gain"])));
    assert!(ids_unique(&Vec::new()));
    assert!(ids_unique(&ids(&["ab", "a", "b"])));
}
