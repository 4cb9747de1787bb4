//! Tests for the object state store: tracking, the pair index, removal
//! idempotence, and the per-basename ident counters.

use helvum::state::{Item, State};
use helvum::{Direction, MediaType};

fn node(name: &str) -> Item {
    Item::Node { media_type: None, ident_base: name.to_string() }
}

fn port(node_id: u32, direction: Direction) -> Item {
    Item::Port { node_id, direction, media_type: None }
}

fn link(port_from: u32, port_to: u32) -> Item {
    Item::Link { port_from, port_to, active: false, media_type: None }
}

/// A store with two nodes, an output port 10 on node 1 and an input port 11
/// on node 2.
fn two_nodes_two_ports() -> State {
    let mut s = State::new();
    s.insert(1, node("left"));
    s.insert(2, node("right"));
    s.insert(10, port(1, Direction::Output));
    s.insert(11, port(2, Direction::Input));
    s
}

#[test]
fn store_new_store_is_empty() {
    let s = State::new();
    assert_eq!(s.len(), 0);
    assert!(s.get(1).is_none());
    assert_eq!(s.get_link_id(1, 2), None);
    assert_eq!(s.get_node_of_port(1), None);
}

#[test]
fn store_tracks_inserted_items() {
    let mut s = State::new();
    s.insert(1, node("mic"));
    assert_eq!(s.len(), 1);
    assert!(matches!(s.get(1), Some(Item::Node { .. })));
    assert!(s.get(2).is_none());
}

#[test]
fn store_live_iff_appeared_without_removal() {
    // For a sequence of appeared/removed events, get answers Some exactly
    // for the ids whose most recent event was an appearance.
    let mut s = State::new();
    s.insert(1, node("a"));
    s.insert(2, node("b"));
    s.insert(3, node("c"));
    s.remove(2);
    assert!(s.get(1).is_some());
    assert!(s.get(2).is_none());
    assert!(s.get(3).is_some());
    assert_eq!(s.len(), 2);
}

#[test]
fn store_link_pair_index_exact() {
    let mut s = two_nodes_two_ports();
    s.insert(100, link(10, 11));
    assert_eq!(s.get_link_id(10, 11), Some(100));
    // The index is direction-sensitive: the reversed pair is not indexed.
    assert_eq!(s.get_link_id(11, 10), None);
    assert_eq!(s.get_link_id(10, 12), None);
}

#[test]
fn store_link_removal_clears_pair_index() {
    let mut s = two_nodes_two_ports();
    s.insert(100, link(10, 11));
    let removed = s.remove(100);
    assert!(matches!(removed, Some(Item::Link { port_from: 10, port_to: 11, .. })));
    assert_eq!(s.get_link_id(10, 11), None);
    assert!(s.get(100).is_none());
}

#[test]
fn store_remove_twice_returns_none_second_time() {
    let mut s = two_nodes_two_ports();
    s.insert(100, link(10, 11));
    assert!(s.remove(100).is_some());
    let len_after_first = s.len();
    // The second removal of the same id finds nothing and changes nothing.
    assert!(s.remove(100).is_none());
    assert_eq!(s.len(), len_after_first);
    assert_eq!(s.get_link_id(10, 11), None);
    // A third one as well, and the rest of the store is intact.
    assert!(s.remove(100).is_none());
    assert!(s.get(10).is_some());
    assert!(s.get(11).is_some());
}

#[test]
fn store_remove_absent_id_is_harmless() {
    let mut s = State::new();
    assert!(s.remove(7).is_none());
    assert_eq!(s.len(), 0);
}

#[test]
fn store_node_of_port_projection() {
    let s = two_nodes_two_ports();
    assert_eq!(s.get_node_of_port(10), Some(1));
    assert_eq!(s.get_node_of_port(11), Some(2));
    // A node id or an absent id is no port.
    assert_eq!(s.get_node_of_port(1), None);
    assert_eq!(s.get_node_of_port(99), None);
}

#[test]
fn store_node_ident_increments_per_basename() {
    let mut s = State::new();
    assert_eq!(s.get_node_ident("Mic".to_string()).unwrap(), "Mic1");
    assert_eq!(s.get_node_ident("Mic".to_string()).unwrap(), "Mic2");
    assert_eq!(s.get_node_ident("Cam".to_string()).unwrap(), "Cam1");
    assert_eq!(s.get_node_ident("Mic".to_string()).unwrap(), "Mic3");
}

#[test]
fn store_node_ident_resets_when_last_holder_leaves() {
    let mut s = State::new();
    assert_eq!(s.get_node_ident("Mic".to_string()).unwrap(), "Mic1");
    s.insert(1, node("Mic"));
    assert_eq!(s.get_node_ident("Mic".to_string()).unwrap(), "Mic2");
    s.insert(2, node("Mic"));
    // One holder of the basename leaves; the counter keeps counting.
    s.remove(1);
    assert_eq!(s.get_node_ident("Mic".to_string()).unwrap(), "Mic3");
    // The last holder leaves; the counter starts over.
    s.remove(2);
    assert_eq!(s.get_node_ident("Mic".to_string()).unwrap(), "Mic1");
}

#[test]
fn store_node_ident_counters_are_independent() {
    let mut s = State::new();
    s.insert(1, node("Mic"));
    s.insert(2, node("Cam"));
    assert_eq!(s.get_node_ident("Mic".to_string()).unwrap(), "Mic1");
    assert_eq!(s.get_node_ident("Cam".to_string()).unwrap(), "Cam1");
    s.remove(1);
    // Only the departed basename's counter resets.
    assert_eq!(s.get_node_ident("Mic".to_string()).unwrap(), "Mic1");
    assert_eq!(s.get_node_ident("Cam".to_string()).unwrap(), "Cam2");
}

#[test]
fn store_set_media_type_updates_in_place() {
    let mut s = two_nodes_two_ports();
    s.insert(100, link(10, 11));
    assert!(s.set_media_type(10, Some(MediaType::Audio)));
    assert!(matches!(
        s.get(10),
        Some(Item::Port { node_id: 1, direction: Direction::Output, media_type: Some(MediaType::Audio) })
    ));
    assert!(s.set_media_type(1, Some(MediaType::Video)));
    assert!(s.set_media_type(100, Some(MediaType::Midi)));
    // The link keeps its ports and its index entry.
    assert_eq!(s.get_link_id(10, 11), Some(100));
    // An absent id finds nothing to update.
    assert!(!s.set_media_type(77, Some(MediaType::Audio)));
}

#[test]
fn store_set_media_type_skips_clients() {
    let mut s = State::new();
    s.insert(5, Item::Client { name: "mixer".to_string() });
    assert!(!s.set_media_type(5, Some(MediaType::Audio)));
    assert!(matches!(s.get(5), Some(Item::Client { name }) if name == "mixer"));
}

#[test]
fn store_set_link_active_updates_only_links() {
    let mut s = two_nodes_two_ports();
    s.insert(100, link(10, 11));
    assert!(s.set_link_active(100, true));
    assert!(matches!(s.get(100), Some(Item::Link { active: true, .. })));
    assert!(!s.set_link_active(10, true));
    assert!(!s.set_link_active(99, true));
    assert_eq!(s.get_link_id(10, 11), Some(100));
}

#[test]
fn store_client_roundtrip() {
    let mut s = State::new();
    s.insert(4, Item::Client { name: "recorder".to_string() });
    assert!(matches!(s.get(4), Some(Item::Client { name }) if name == "recorder"));
    assert!(matches!(s.remove(4), Some(Item::Client { .. })));
    assert!(s.get(4).is_none());
}
