//! Remote-object state tracking for a multimedia patchbay.
//!
//! The library keeps a local projection of a remote media server's object
//! graph (clients, nodes, ports, links), normalizes the server's registry
//! events into messages for a presentation layer, and resolves a user's
//! connect/disconnect gesture into a create-or-destroy request.

use vstd::prelude::*;

pub mod graph_manager;
pub mod ingest;
pub mod reconnect;
pub mod state;
pub mod text;
pub mod toggle;

verus! {

/// The direction of a port: it either consumes data or produces it.
#[derive(Clone, Copy, Debug, PartialEq, Eq, Structural)]
pub enum Direction {
    Input,
    Output,
}

/// Whether a node as a whole consumes or produces media.
#[derive(Clone, Copy, Debug, PartialEq, Eq, Structural)]
pub enum NodeType {
    Input,
    Output,
}

/// The kind of media flowing through a node, port or link.
#[derive(Clone, Copy, Debug, PartialEq, Eq, Structural)]
pub enum MediaType {
    Audio,
    Video,
    Midi,
}

/// The payload of a link-creation request: which port of which node feeds
/// which port of which node.
#[derive(Clone, Copy, Debug, PartialEq, Eq, Structural)]
pub struct PipewireLink {
    pub node_from: u32,
    pub port_from: u32,
    pub node_to: u32,
    pub port_to: u32,
}

/// Messages the presentation thread sends to the backend thread.
#[derive(Clone, Debug, PartialEq, Eq)]
pub enum GtkMessage {
    /// Toggle a link between the two specified ports.
    ToggleLink { port_from: u32, port_to: u32 },
    /// Reconfigure the remote target and reconnect; `None` means the
    /// default remote.
    Connect(Option<String>),
    /// Quit the backend loop and let its thread finish.
    Terminate,
}

/// Messages the backend thread sends to the presentation thread, in the
/// order it produced them.
#[derive(Clone, Debug, PartialEq, Eq)]
pub enum PipewireMessage {
    Connecting,
    Connected,
    Disconnected,
    ClientAdded { id: u32, name: String },
    NodeAdded { id: u32, name: String, node_type: Option<NodeType> },
    NodeNameChanged { id: u32, name: String, media_name: String },
    PortAdded { id: u32, node_id: u32, name: String, direction: Direction },
    PortFormatChanged { id: u32, media_type: Option<MediaType> },
    LinkAdded {
        id: u32,
        output_port_id: u32,
        input_port_id: u32,
        active: bool,
        media_type: Option<MediaType>,
    },
    LinkStateChanged { id: u32, active: bool },
    LinkFormatChanged { id: u32, media_type: Option<MediaType> },
    ClientRemoved { id: u32 },
    NodeRemoved { id: u32 },
    PortRemoved { id: u32, node_id: u32 },
    LinkRemoved { id: u32 },
}

} // verus!
