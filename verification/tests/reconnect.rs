//! Tests for the reconnect loop's state machine: control messages, the
//! connecting/connected announcements, and the per-connection store.

use helvum::ingest::{handle_client, handle_node, ClientProps, NodeProps};
use helvum::reconnect::{ConnectionPhase, LoopState, ReconnectLoop};
use helvum::{GtkMessage, PipewireMessage};

fn node_props(name: &str) -> NodeProps {
    NodeProps {
        node_description: Some(name.to_string()),
        node_nick: None,
        node_name: None,
        media_category: None,
        media_class: None,
        media_name: None,
    }
}

#[test]
fn control_terminate_stops_the_loop() {
    let mut c = LoopState::new();
    assert!(!c.is_stopped);
    assert!(c.handle_message(GtkMessage::Terminate));
    assert!(c.is_stopped);
}

#[test]
fn control_connect_reconfigures_the_remote() {
    let mut c = LoopState::new();
    assert!(c.handle_message(GtkMessage::Connect(Some("/run/pipewire-1".to_string()))));
    assert_eq!(c.remote.as_deref(), Some("/run/pipewire-1"));
    assert!(!c.is_stopped);
    // Reconnecting to the default remote clears the target.
    assert!(c.handle_message(GtkMessage::Connect(None)));
    assert_eq!(c.remote, None);
}

#[test]
fn control_toggle_does_not_interrupt() {
    let mut c = LoopState::new();
    assert!(!c.handle_message(GtkMessage::ToggleLink { port_from: 10, port_to: 11 }));
    assert!(!c.is_stopped);
    assert_eq!(c.remote, None);
}

#[test]
fn reconnect_announces_connecting_once() {
    let mut l = ReconnectLoop::new();
    assert_eq!(l.connect_failed(), Some(PipewireMessage::Connecting));
    // Later failures in the same retry cycle stay silent.
    assert_eq!(l.connect_failed(), None);
    assert_eq!(l.connect_failed(), None);
    assert!(matches!(l.phase, ConnectionPhase::Connecting));
}

#[test]
fn reconnect_announces_connected_after_connecting() {
    let mut l = ReconnectLoop::new();
    l.connect_failed();
    assert_eq!(l.connect_succeeded(), Some(PipewireMessage::Connected));
    assert!(matches!(l.phase, ConnectionPhase::Connected));
}

#[test]
fn reconnect_immediate_success_stays_silent() {
    // When the very first attempt succeeds, no Connecting was announced,
    // so no Connected follows it.
    let mut l = ReconnectLoop::new();
    assert_eq!(l.connect_succeeded(), None);
    assert!(matches!(l.phase, ConnectionPhase::Connected));
}

#[test]
fn reconnect_session_end_announces_disconnected() {
    let mut l = ReconnectLoop::new();
    l.connect_succeeded();
    assert_eq!(l.session_ended(), PipewireMessage::Disconnected);
    assert!(matches!(l.phase, ConnectionPhase::Disconnected));
}

#[test]
fn reconnect_cycle_starts_with_an_empty_store() {
    // A fatal connection error while three objects are tracked: after the
    // transition, the next session starts with an empty store.
    let mut l = ReconnectLoop::new();
    l.connect_succeeded();
    handle_node(&mut l.store, 1, Some(&node_props("a"))).unwrap();
    handle_node(&mut l.store, 2, Some(&node_props("b"))).unwrap();
    let client = ClientProps { application_name: Some("app".to_string()) };
    handle_client(&mut l.store, 3, Some(&client)).unwrap();
    assert_eq!(l.store.len(), 3);
    // The connection breaks; the presentation layer is told to clear.
    assert_eq!(l.session_ended(), PipewireMessage::Disconnected);
    // Retry, then reconnect: nothing leaked from the prior session.
    assert_eq!(l.connect_failed(), Some(PipewireMessage::Connecting));
    assert_eq!(l.connect_succeeded(), Some(PipewireMessage::Connected));
    assert_eq!(l.store.len(), 0);
    assert!(l.store.get(1).is_none());
    assert!(l.store.get(2).is_none());
    assert!(l.store.get(3).is_none());
}

#[test]
fn reconnect_control_survives_transitions() {
    let mut l = ReconnectLoop::new();
    l.control.handle_message(GtkMessage::Connect(Some("target".to_string())));
    l.connect_failed();
    l.connect_succeeded();
    assert_eq!(l.control.remote.as_deref(), Some("target"));
    l.session_ended();
    assert_eq!(l.control.remote.as_deref(), Some("target"));
    l.control.handle_message(GtkMessage::Terminate);
    assert!(l.control.is_stopped);
}
