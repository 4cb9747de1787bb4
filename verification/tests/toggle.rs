//! Tests for the link toggle resolver.

use helvum::ingest::handle_link_info;
use helvum::ingest::LinkInfo;
use helvum::state::{Item, State};
use helvum::toggle::{toggle_link, ToggleAction, ToggleError};
use helvum::{Direction, PipewireLink};

fn node(name: &str) -> Item {
    Item::Node { media_type: None, ident_base: name.to_string() }
}

fn port(node_id: u32, direction: Direction) -> Item {
    Item::Port { node_id, direction, media_type: None }
}

/// Node 1 with output port 10, node 2 with input port 11.
fn fixture() -> State {
    let mut s = State::new();
    s.insert(1, node("left"));
    s.insert(2, node("right"));
    s.insert(10, port(1, Direction::Output));
    s.insert(11, port(2, Direction::Input));
    s
}

#[test]
fn toggle_requests_creation_when_no_link_exists() {
    let s = fixture();
    let r = toggle_link(&s, 10, 11);
    assert_eq!(
        r,
        Ok(ToggleAction::CreateLink(PipewireLink {
            node_from: 1,
            port_from: 10,
            node_to: 2,
            port_to: 11,
        }))
    );
}

#[test]
fn toggle_resolves_roles_from_directions() {
    // The same gesture with the ports named in the other order creates the
    // same output-to-input link: the store's directions decide the roles.
    let s = fixture();
    assert_eq!(toggle_link(&s, 11, 10), toggle_link(&s, 10, 11));
}

#[test]
fn toggle_twice_destroys_what_it_created() {
    let mut s = fixture();
    // First toggle: no link yet, so a creation request for (10 -> 11).
    let r = toggle_link(&s, 10, 11);
    assert!(matches!(r, Ok(ToggleAction::CreateLink(_))));
    // The remote system obliges; the announced link cycles back through
    // ingestion under id 100.
    let info = LinkInfo {
        output_port_id: 10,
        input_port_id: 11,
        active: false,
        media_type: None,
        state_changed: false,
        format_changed: false,
    };
    handle_link_info(&mut s, 100, &info).unwrap();
    // Second toggle: a destruction request for that id, not a second creation.
    assert_eq!(toggle_link(&s, 10, 11), Ok(ToggleAction::DestroyLink { id: 100 }));
    // Also when the gesture names the ports in the other order.
    assert_eq!(toggle_link(&s, 11, 10), Ok(ToggleAction::DestroyLink { id: 100 }));
}

#[test]
fn toggle_unknown_port_fails() {
    let s = fixture();
    assert_eq!(toggle_link(&s, 10, 99), Err(ToggleError::UnknownPort));
    assert_eq!(toggle_link(&s, 99, 11), Err(ToggleError::UnknownPort));
    // A node id is no port.
    assert_eq!(toggle_link(&s, 1, 11), Err(ToggleError::UnknownPort));
}

#[test]
fn toggle_same_direction_fails() {
    let mut s = fixture();
    s.insert(12, port(2, Direction::Input));
    assert_eq!(toggle_link(&s, 11, 12), Err(ToggleError::IncompatibleDirections));
}

#[test]
fn toggle_with_departed_owning_node_fails() {
    let mut s = fixture();
    // The input port's node goes away between gesture and toggle; its port
    // dangles, so no creation request is made.
    s.remove(2);
    assert_eq!(toggle_link(&s, 10, 11), Err(ToggleError::UnknownNode));
}
