//! Tests for the presentation mirror: it follows normalized messages,
//! drops anything naming an unknown or mismatched id, and never shows an
//! item attached to a missing one.

use helvum::graph_manager::{GraphItem, GraphManager};
use helvum::{Direction, MediaType, NodeType};

/// A mirror with node 1 (output port 10) and node 2 (input port 11).
fn mirror_fixture() -> GraphManager {
    let mut g = GraphManager::new();
    g.add_node(1, "left".to_string(), Some(NodeType::Output));
    g.add_node(2, "right".to_string(), Some(NodeType::Input));
    assert!(g.add_port(10, "out".to_string(), 1, Direction::Output));
    assert!(g.add_port(11, "in".to_string(), 2, Direction::Input));
    g
}

#[test]
fn mirror_starts_empty() {
    let g = GraphManager::new();
    assert_eq!(g.len(), 0);
    assert!(g.get(1).is_none());
}

#[test]
fn mirror_shows_added_nodes() {
    let mut g = GraphManager::new();
    g.add_node(1, "speakers".to_string(), Some(NodeType::Input));
    assert!(matches!(
        g.get(1),
        Some(GraphItem::Node { name, node_type: Some(NodeType::Input) }) if name == "speakers"
    ));
}

#[test]
fn mirror_renames_nodes() {
    let mut g = mirror_fixture();
    assert!(g.set_node_name(1, "left (playing)".to_string()));
    assert!(matches!(
        g.get(1),
        Some(GraphItem::Node { name, node_type: Some(NodeType::Output) }) if name == "left (playing)"
    ));
    // Renaming a port or an unknown id does nothing.
    assert!(!g.set_node_name(10, "x".to_string()));
    assert!(!g.set_node_name(9, "x".to_string()));
}

#[test]
fn mirror_drops_port_for_unknown_node() {
    let mut g = GraphManager::new();
    assert!(!g.add_port(10, "out".to_string(), 1, Direction::Output));
    assert_eq!(g.len(), 0);
}

#[test]
fn mirror_drops_port_for_mismatched_node_id() {
    let mut g = mirror_fixture();
    // Id 10 names a port, not a node: a port cannot sit on it.
    assert!(!g.add_port(12, "x".to_string(), 10, Direction::Input));
    assert!(g.get(12).is_none());
}

#[test]
fn mirror_updates_port_media_type() {
    let mut g = mirror_fixture();
    assert!(g.port_media_type_changed(10, Some(MediaType::Audio)));
    assert!(matches!(
        g.get(10),
        Some(GraphItem::Port { name, node_id: 1, direction: Direction::Output, media_type: Some(MediaType::Audio) })
            if name == "out"
    ));
    assert!(!g.port_media_type_changed(1, Some(MediaType::Audio)));
    assert!(!g.port_media_type_changed(99, Some(MediaType::Audio)));
}

#[test]
fn mirror_link_needs_both_ports() {
    let mut g = mirror_fixture();
    assert!(!g.add_link(100, 10, 99, false, None));
    assert!(!g.add_link(100, 99, 11, false, None));
    // A node id is no port.
    assert!(!g.add_link(100, 1, 11, false, None));
    assert!(g.get(100).is_none());
    assert!(g.add_link(100, 10, 11, false, None));
    assert!(matches!(
        g.get(100),
        Some(GraphItem::Link { output_port_id: 10, input_port_id: 11, active: false, media_type: None })
    ));
}

#[test]
fn mirror_link_state_and_format_changes() {
    let mut g = mirror_fixture();
    g.add_link(100, 10, 11, false, None);
    assert!(g.link_state_changed(100, true));
    assert!(matches!(g.get(100), Some(GraphItem::Link { active: true, .. })));
    assert!(g.link_format_changed(100, Some(MediaType::Audio)));
    assert!(matches!(
        g.get(100),
        Some(GraphItem::Link { active: true, media_type: Some(MediaType::Audio), .. })
    ));
    // Unknown or mismatched ids change nothing.
    assert!(!g.link_state_changed(10, true));
    assert!(!g.link_format_changed(99, None));
}

#[test]
fn mirror_removals_check_the_kind() {
    let mut g = mirror_fixture();
    g.add_link(100, 10, 11, false, None);
    // A removal naming the wrong kind of id leaves the mirror alone.
    assert!(!g.remove_node(10));
    assert!(!g.remove_port(1, 2));
    assert!(!g.remove_link(11));
    assert_eq!(g.len(), 5);
    // Proper removals take effect.
    assert!(g.remove_link(100));
    assert!(g.remove_port(11, 2));
    assert!(g.remove_node(2));
    assert_eq!(g.len(), 2);
    // Removing again finds nothing.
    assert!(!g.remove_link(100));
    assert!(!g.remove_port(11, 2));
    assert!(!g.remove_node(2));
}

#[test]
fn mirror_remove_port_needs_its_node() {
    let mut g = mirror_fixture();
    // The removal names a node that is not displayed: dropped.
    assert!(!g.remove_port(10, 99));
    assert!(g.get(10).is_some());
    assert!(g.remove_port(10, 1));
    assert!(g.get(10).is_none());
}

#[test]
fn mirror_clear_empties_everything() {
    let mut g = mirror_fixture();
    g.add_link(100, 10, 11, true, Some(MediaType::Midi));
    g.clear();
    assert_eq!(g.len(), 0);
    assert!(g.get(1).is_none());
    assert!(g.get(100).is_none());
}
