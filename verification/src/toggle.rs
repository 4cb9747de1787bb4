//! The link toggle resolver: translate a user's connect/disconnect gesture
//! on a pair of ports into a create-or-destroy request for the remote
//! system.  Both requests are fire-and-forget: their outcome is observed
//! later as registry events cycling back through ingestion.

use vstd::prelude::*;

use crate::state::{link_pair_matches, Item, State};
use crate::{Direction, PipewireLink};

verus! {

/// The request a toggle resolves to.
#[derive(Clone, Copy, Debug, PartialEq, Eq, Structural)]
pub enum ToggleAction {
    /// Ask the remote system to destroy the link with this id.
    DestroyLink { id: u32 },
    /// Ask the remote system to create this link.  The request carries a
    /// linger hint, so the remote system cleans the link up if it is never
    /// activated.
    CreateLink(PipewireLink),
}

/// Why a toggle was abandoned: a race between the user's gesture and the
/// store, not a protocol violation.  No remote call is made.
#[derive(Clone, Copy, Debug, PartialEq, Eq, Structural)]
pub enum ToggleError {
    /// One of the two ports is not tracked.
    UnknownPort,
    /// Both ports are tracked but point the same way, so no output-to-input
    /// link can connect them.
    IncompatibleDirections,
    /// The owning node of one of the ports is not tracked.
    UnknownNode,
}

/// The direction of the port tracked under `id`, if there is one.
pub open spec fn spec_port_direction(s: &State, id: u32) -> Option<Direction> {
    if s.items().contains_key(id) {
        match s.items()[id] {
            Item::Port { direction, .. } => Some(direction),
            _ => None,
        }
    } else {
        None
    }
}

/// What a toggle of `(port_from, port_to)` resolves to.
///
/// The ports' roles come from their stored directions, not from the order
/// the request names them in.  A link already connecting the pair in
/// output-to-input order is destroyed; otherwise a new link from the
/// output port's node to the input port's node is created, provided both
/// owning nodes are still tracked.
pub open spec fn spec_toggle(s: &State, port_from: u32, port_to: u32) -> Result<
    ToggleAction,
    ToggleError,
> {
    match (spec_port_direction(s, port_from), spec_port_direction(s, port_to)) {
        (Some(dir_from), Some(dir_to)) => {
            if dir_from == dir_to {
                Err(ToggleError::IncompatibleDirections)
            } else {
                let output_port = if dir_from is Output {
                    port_from
                } else {
                    port_to
                };
                let input_port = if dir_from is Output {
                    port_to
                } else {
                    port_from
                };
                match s.spec_get_link_id(output_port, input_port) {
                    Some(id) => Ok(ToggleAction::DestroyLink { id }),
                    None => {
                        match (
                            s.spec_node_of_port(output_port),
                            s.spec_node_of_port(input_port),
                        ) {
                            (Some(node_from), Some(node_to)) => {
                                if s.has_node(node_from) && s.has_node(node_to) {
                                    Ok(
                                        ToggleAction::CreateLink(
                                            PipewireLink {
                                                node_from,
                                                port_from: output_port,
                                                node_to,
                                                port_to: input_port,
                                            },
                                        ),
                                    )
                                } else {
                                    Err(ToggleError::UnknownNode)
                                }
                            },
                            _ => Err(ToggleError::UnknownPort),
                        }
                    },
                }
            }
        },
        _ => Err(ToggleError::UnknownPort),
    }
}

/// Resolve a toggle of the two given ports against the store.
pub fn toggle_link(state: &State, port_from: u32, port_to: u32) -> (r: Result<
    ToggleAction,
    ToggleError,
>)
    ensures
        r == spec_toggle(state, port_from, port_to),
{
    let (dir_from, node_of_from) = match state.get(port_from) {
        Some(Item::Port { direction, node_id, .. }) => (*direction, *node_id),
        _ => {
            return Err(ToggleError::UnknownPort);
        },
    };
    let (dir_to, node_of_to) = match state.get(port_to) {
        Some(Item::Port { direction, node_id, .. }) => (*direction, *node_id),
        _ => {
            return Err(ToggleError::UnknownPort);
        },
    };
    if dir_from == dir_to {
        return Err(ToggleError::IncompatibleDirections);
    }
    let from_is_output = match dir_from {
        Direction::Output => true,
        Direction::Input => false,
    };
    let output_port = if from_is_output {
        port_from
    } else {
        port_to
    };
    let input_port = if from_is_output {
        port_to
    } else {
        port_from
    };
    if let Some(id) = state.get_link_id(output_port, input_port) {
        return Ok(ToggleAction::DestroyLink { id });
    }
    let node_from = if from_is_output {
        node_of_from
    } else {
        node_of_to
    };
    let node_to = if from_is_output {
        node_of_to
    } else {
        node_of_from
    };
    let from_known = match state.get(node_from) {
        Some(Item::Node { .. }) => true,
        _ => false,
    };
    let to_known = match state.get(node_to) {
        Some(Item::Node { .. }) => true,
        _ => false,
    };
    if !(from_known && to_known) {
        return Err(ToggleError::UnknownNode);
    }
    Ok(
        ToggleAction::CreateLink(
            PipewireLink { node_from, port_from: output_port, node_to, port_to: input_port },
        ),
    )
}

/// Toggle symmetry.
///
/// With `a` a tracked output port and `b` a tracked input port, both owned
/// by tracked nodes and with no link between them yet, a toggle resolves to
/// a creation request from `a` to `b`.  Once the announced link has been
/// ingested under some id — which is how the store `s2` relates to `s1` —
/// a second toggle of the same ports resolves to a destruction request for
/// exactly that id, not a second creation.
pub proof fn lemma_toggle_symmetry(
    s1: &State,
    s2: &State,
    a: u32,
    b: u32,
    na: u32,
    nb: u32,
    id: u32,
    item: Item,
)
    requires
        s1.wf(),
        s2.wf(),
        spec_port_direction(s1, a) == Some(Direction::Output),
        spec_port_direction(s1, b) == Some(Direction::Input),
        s1.spec_node_of_port(a) == Some(na),
        s1.has_node(na),
        s1.spec_node_of_port(b) == Some(nb),
        s1.has_node(nb),
        s1.spec_get_link_id(a, b) is None,
        !s1.items().contains_key(id),
        link_pair_matches(item, a, b),
        s2.items() == s1.items().insert(id, item),
    ensures
        spec_toggle(s1, a, b) == Ok::<ToggleAction, ToggleError>(
            ToggleAction::CreateLink(
                PipewireLink { node_from: na, port_from: a, node_to: nb, port_to: b },
            ),
        ),
        spec_toggle(s2, a, b) == Ok::<ToggleAction, ToggleError>(ToggleAction::DestroyLink { id }),
{
    // The ports and their directions survive the link's insertion: the link
    // came in under a fresh id, so the ports' entries are untouched.
    assert(s2.items().contains_key(a) && s2.items()[a] == s1.items()[a]);
    assert(s2.items().contains_key(b) && s2.items()[b] == s1.items()[b]);
    // The inserted link is tracked, so the pair index of the well-formed
    // store `s2` answers its id for exactly this pair.
    crate::state::lemma_link_index_exact(s2, a, b);
    assert(s2.items().contains_key(id));
    assert(s2.spec_get_link_id(a, b) == Some(id));
}

} // verus!
