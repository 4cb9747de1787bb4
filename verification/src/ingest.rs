//! Event ingestion and normalization: classify raw registry notifications,
//! update the object state store, and produce the normalized messages the
//! presentation layer consumes.

use vstd::prelude::*;

use crate::state::{
    counters_after_insert, counters_after_remove, link_pair_matches, with_link_active,
    with_media_type, Item, State,
};
use crate::text::{contains_seq, spec_parse_u32};
use crate::{Direction, MediaType, NodeType, PipewireMessage};

verus! {

/// Why processing of a single event was abandoned.  None of these tears
/// down the connection; the event is dropped and logged by the caller.
#[derive(Clone, Copy, Debug, PartialEq, Eq, Structural)]
pub enum IngestError {
    /// The event referred to an id the store does not track; expected to
    /// occur transiently, e.g. for a late event after a local removal.
    UnknownId,
    /// A property the normalizer needs was missing or unreadable; a
    /// developer-visible defect of the remote side, not a normal condition.
    MissingProperty,
    /// A port appeared on a node the store does not track; the port is
    /// discarded until the node is known.
    UnknownOwningNode,
    /// A link appeared whose ports do not both resolve to tracked ports.
    UnresolvedPort,
    /// A link appeared between a port pair that already has a tracked link.
    DuplicateLinkPair,
}

/// The properties of a node, as delivered by the registry.
pub struct NodeProps {
    pub node_description: Option<String>,
    pub node_nick: Option<String>,
    pub node_name: Option<String>,
    pub media_category: Option<String>,
    pub media_class: Option<String>,
    pub media_name: Option<String>,
}

/// The properties of a port, as delivered with its first info event.
pub struct PortProps {
    pub port_name: Option<String>,
    /// The raw value of the property naming the owning node's id.
    pub node_id: Option<String>,
}

/// The properties of a client, as delivered by the registry.
pub struct ClientProps {
    pub application_name: Option<String>,
}

/// The fields of a link info event the normalizer reads.
pub struct LinkInfo {
    pub output_port_id: u32,
    pub input_port_id: u32,
    /// Whether the link is actively streaming.
    pub active: bool,
    pub media_type: Option<MediaType>,
    /// Whether the event's change mask marks the link state as changed.
    pub state_changed: bool,
    /// Whether the event's change mask marks the link format as changed.
    pub format_changed: bool,
}

/// The view of an optional name property, with a missing one read as the
/// empty name.
pub open spec fn opt_name_view(name: Option<String>) -> Seq<char> {
    match name {
        Some(s) => s@,
        None => Seq::<char>::empty(),
    }
}

/// The view of an optional property string.
pub open spec fn opt_str_view(s: Option<String>) -> Option<Seq<char>> {
    match s {
        Some(s) => Some(s@),
        None => None,
    }
}

/// The nicest available name for a node: its description, else its
/// nickname, else its raw name, else the empty string.
pub open spec fn spec_node_name(props: NodeProps) -> Seq<char> {
    match props.node_description {
        Some(d) => d@,
        None => match props.node_nick {
            Some(n) => n@,
            None => opt_name_view(props.node_name),
        },
    }
}

/// Whether a media category string marks a node as duplex, which defeats
/// input/output classification.
pub open spec fn category_is_duplex(media_category: Option<Seq<char>>) -> bool {
    match media_category {
        Some(c) => contains_seq(c, "Duplex"@),
        None => false,
    }
}

/// The node type a media class string suggests: a sink consumes media, a
/// source produces it.
pub open spec fn class_node_type(media_class: Option<Seq<char>>) -> Option<NodeType> {
    match media_class {
        Some(c) => {
            if contains_seq(c, "Sink"@) || contains_seq(c, "Input"@) {
                Some(NodeType::Input)
            } else if contains_seq(c, "Source"@) || contains_seq(c, "Output"@) {
                Some(NodeType::Output)
            } else {
                None
            }
        },
        None => None,
    }
}

/// How a node's category and class strings classify it: a duplex category
/// forces no classification, otherwise the class string decides.
pub open spec fn spec_node_type(
    media_category: Option<Seq<char>>,
    media_class: Option<Seq<char>>,
) -> Option<NodeType> {
    if category_is_duplex(media_category) {
        None
    } else {
        class_node_type(media_class)
    }
}

/// Whether `item` is a node item with the given media type and basename.
pub open spec fn is_node_item(item: Item, media_type: Option<MediaType>, base: Seq<char>) -> bool {
    match item {
        Item::Node { media_type: m, ident_base } => m == media_type && ident_base@ == base,
        _ => false,
    }
}

/// Whether `item` is a client item with the given name.
pub open spec fn is_client_item(item: Item, name: Seq<char>) -> bool {
    match item {
        Item::Client { name: n } => n@ == name,
        _ => false,
    }
}

/// Nothing observable about the store changed.
pub open spec fn store_unchanged(pre: State, post: State) -> bool {
    &&& post.items() == pre.items()
    &&& post.counters() == pre.counters()
    &&& forall|f: u32, t: u32| #![trigger post.spec_get_link_id(f, t)]
        post.spec_get_link_id(f, t) == pre.spec_get_link_id(f, t)
}

/// Pick the nicest available name for a node from its properties.
pub fn get_node_name(props: &NodeProps) -> (name: String)
    ensures
        name@ == spec_node_name(*props),
{
    if let Some(d) = &props.node_description {
        d.clone()
    } else if let Some(n) = &props.node_nick {
        n.clone()
    } else if let Some(n) = &props.node_name {
        n.clone()
    } else {
        String::new()
    }
}

/// Classify a node as consuming or producing media from its category and
/// class property strings.
pub fn node_type_from_props(props: &NodeProps) -> (r: Option<NodeType>)
    ensures
        r == spec_node_type(opt_str_view(props.media_category), opt_str_view(props.media_class)),
{
    if let Some(category) = &props.media_category {
        if crate::text::str_contains(category.as_str(), "Duplex") {
            return None;
        }
    }
    match &props.media_class {
        Some(class) => {
            if crate::text::str_contains(class.as_str(), "Sink") || crate::text::str_contains(
                class.as_str(),
                "Input",
            ) {
                Some(NodeType::Input)
            } else if crate::text::str_contains(class.as_str(), "Source")
                || crate::text::str_contains(class.as_str(), "Output") {
                Some(NodeType::Output)
            } else {
                None
            }
        },
        None => None,
    }
}

/// Handle a node's first appearance: extract its display name and type,
/// track it, and produce the normalized message announcing it.
///
/// A node appearing under an id that is already tracked is a programmer
/// error; the remote system never reuses a live id.
pub fn handle_node(state: &mut State, id: u32, props: Option<&NodeProps>) -> (r: Result<
    PipewireMessage,
    IngestError,
>)
    requires
        old(state).wf(),
        !old(state).items().contains_key(id),
    ensures
        final(state).wf(),
        match r {
            Ok(msg) => {
                &&& props matches Some(p)
                &&& msg matches PipewireMessage::NodeAdded { id: mid, name, node_type }
                    && mid == id
                    && name@ == spec_node_name(*p)
                    && node_type == spec_node_type(
                    opt_str_view(p.media_category),
                    opt_str_view(p.media_class),
                )
                &&& final(state).items() == old(state).items().insert(
                    id,
                    final(state).items()[id],
                )
                &&& is_node_item(final(state).items()[id], None, spec_node_name(*p))
                &&& final(state).counters() == counters_after_insert(
                    old(state).counters(),
                    final(state).items()[id],
                )
                &&& forall|f: u32, t: u32| #![trigger final(state).spec_get_link_id(f, t)]
                    final(state).spec_get_link_id(f, t) == old(state).spec_get_link_id(f, t)
            },
            Err(e) => {
                &&& e == IngestError::MissingProperty
                &&& props is None
                &&& store_unchanged(*old(state), *final(state))
            },
        },
    {
    let p = match props {
        Some(p) => p,
        None => {
            return Err(IngestError::MissingProperty);
        },
    };
    let name = get_node_name(p);
    let node_type = node_type_from_props(p);
    state.insert(id, Item::Node { media_type: None, ident_base: name.clone() });
    Ok(PipewireMessage::NodeAdded { id, name, node_type })
}

/// Handle a later info event for a tracked node: when the event carries a
/// media name, produce the message renaming the node; otherwise nothing
/// changed that the presentation layer shows.
pub fn handle_node_info(state: &State, id: u32, props: Option<&NodeProps>) -> (r: Result<
    Option<PipewireMessage>,
    IngestError,
>)
    ensures
        match r {
            Ok(Some(msg)) => {
                &&& state.has_node(id)
                &&& props matches Some(p)
                &&& p.media_name matches Some(m)
                    && (msg matches PipewireMessage::NodeNameChanged { id: mid, name, media_name }
                        && mid == id && name@ == spec_node_name(*p) && media_name@ == m@)
            },
            Ok(None) => {
                &&& state.has_node(id)
                &&& props matches Some(p) && p.media_name is None
            },
            Err(IngestError::UnknownId) => !state.has_node(id),
            Err(IngestError::MissingProperty) => state.has_node(id) && props is None,
            Err(_) => false,
        },
{
    match state.get(id) {
        Some(Item::Node { .. }) => {},
        _ => {
            return Err(IngestError::UnknownId);
        },
    }
    let p = match props {
        Some(p) => p,
        None => {
            return Err(IngestError::MissingProperty);
        },
    };
    match &p.media_name {
        Some(media_name) => {
            let name = get_node_name(p);
            Ok(
                Some(
                    PipewireMessage::NodeNameChanged {
                        id,
                        name,
                        media_name: media_name.clone(),
                    },
                ),
            )
        },
        None => Ok(None),
    }
}

/// Handle a port info event.
///
/// The first info delivery for an id is the first real data about the
/// port: the owning node is read from the properties, the port is tracked
/// and announced — or discarded when the required property is missing or
/// the owning node is unknown.  A later info event for a tracked port
/// carries nothing the presentation layer shows.
pub fn handle_port_info(
    state: &mut State,
    id: u32,
    direction: Direction,
    props: Option<&PortProps>,
) -> (r: Result<Option<PipewireMessage>, IngestError>)
    requires
        old(state).wf(),
        old(state).items().contains_key(id) ==> old(state).items()[id] is Port,
    ensures
        final(state).wf(),
        match r {
            Ok(Some(msg)) => {
                &&& !old(state).items().contains_key(id)
                &&& props matches Some(p)
                &&& p.node_id is Some
                &&& spec_parse_u32(opt_name_view(p.node_id)) matches Some(node_id)
                    && old(state).has_node(node_id)
                    && (msg matches PipewireMessage::PortAdded {
                        id: mid,
                        node_id: mnode,
                        name,
                        direction: mdir,
                    } && mid == id && mnode == node_id && name@ == opt_name_view(p.port_name)
                        && mdir == direction)
                    && final(state).items() == old(state).items().insert(
                    id,
                    Item::Port { node_id, direction, media_type: None },
                )
                &&& final(state).counters() == old(state).counters()
                &&& forall|f: u32, t: u32| #![trigger final(state).spec_get_link_id(f, t)]
                    final(state).spec_get_link_id(f, t) == old(state).spec_get_link_id(f, t)
            },
            Ok(None) => {
                &&& old(state).items().contains_key(id)
                &&& store_unchanged(*old(state), *final(state))
            },
            Err(IngestError::MissingProperty) => {
                &&& !old(state).items().contains_key(id)
                &&& (props is None || (props matches Some(p) && (p.node_id is None
                    || spec_parse_u32(opt_name_view(p.node_id)) is None)))
                &&& store_unchanged(*old(state), *final(state))
            },
            Err(IngestError::UnknownOwningNode) => {
                &&& !old(state).items().contains_key(id)
                &&& props matches Some(p)
                &&& p.node_id is Some
                &&& spec_parse_u32(opt_name_view(p.node_id)) matches Some(node_id)
                    && !old(state).has_node(node_id)
                &&& store_unchanged(*old(state), *final(state))
            },
            Err(_) => false,
        },
{
    if state.get(id).is_some() {
        // A later info delivery for a port already tracked; nothing the
        // presentation layer shows changes here.
        return Ok(None);
    }
    let p = match props {
        Some(p) => p,
        None => {
            return Err(IngestError::MissingProperty);
        },
    };
    let node_id_str = match &p.node_id {
        Some(s) => s,
        None => {
            return Err(IngestError::MissingProperty);
        },
    };
    let node_id = match crate::text::parse_u32(node_id_str.as_str()) {
        Some(v) => v,
        None => {
            return Err(IngestError::MissingProperty);
        },
    };
    let has_node = match state.get(node_id) {
        Some(Item::Node { .. }) => true,
        _ => false,
    };
    if !has_node {
        // Ports always arrive after their node; discard one whose owning
        // node is unknown so the store never holds a dangling reference.
        return Err(IngestError::UnknownOwningNode);
    }
    let name = match &p.port_name {
        Some(n) => n.clone(),
        None => String::new(),
    };
    state.insert(id, Item::Port { node_id, direction, media_type: None });
    Ok(Some(PipewireMessage::PortAdded { id, node_id, name, direction }))
}

/// Handle an enumerated-format parameter event for a port: record the
/// negotiated media type and produce the message announcing it.
pub fn handle_port_enum_format(
    state: &mut State,
    id: u32,
    media_type: Option<MediaType>,
) -> (r: Result<PipewireMessage, IngestError>)
    requires
        old(state).wf(),
    ensures
        final(state).wf(),
        match r {
            Ok(msg) => {
                &&& old(state).has_port(id)
                &&& msg == PipewireMessage::PortFormatChanged { id, media_type }
                &&& final(state).items() == with_media_type(old(state).items(), id, media_type)
                &&& final(state).counters() == old(state).counters()
                &&& forall|f: u32, t: u32| #![trigger final(state).spec_get_link_id(f, t)]
                    final(state).spec_get_link_id(f, t) == old(state).spec_get_link_id(f, t)
            },
            Err(e) => {
                &&& e == IngestError::UnknownId
                &&& !old(state).has_port(id)
                &&& store_unchanged(*old(state), *final(state))
            },
        },
{
    let is_port = match state.get(id) {
        Some(Item::Port { .. }) => true,
        _ => false,
    };
    if !is_port {
        return Err(IngestError::UnknownId);
    }
    let updated = state.set_media_type(id, media_type);
    proof {
        assert(updated);
    }
    Ok(PipewireMessage::PortFormatChanged { id, media_type })
}

/// Handle a link info event.
///
/// The first info delivery for an id carries the connected ports: the link
/// is tracked — together with its pair-index entry — and announced, or
/// discarded when a port does not resolve or the pair already has a link.
/// A later info event produces a state-change or format-change message for
/// each field its change mask marks as changed, updating the stored link.
pub fn handle_link_info(state: &mut State, id: u32, info: &LinkInfo) -> (r: Result<
    Vec<PipewireMessage>,
    IngestError,
>)
    requires
        old(state).wf(),
        old(state).items().contains_key(id) ==> old(state).items()[id] is Link,
    ensures
        final(state).wf(),
        match r {
            Ok(msgs) => {
                if old(state).items().contains_key(id) {
                    // Update path: one message per changed field, in mask order.
                    let state_msgs: Seq<PipewireMessage> = if info.state_changed {
                        seq![PipewireMessage::LinkStateChanged { id, active: info.active }]
                    } else {
                        Seq::empty()
                    };
                    let format_msgs: Seq<PipewireMessage> = if info.format_changed {
                        seq![
                            PipewireMessage::LinkFormatChanged {
                                id,
                                media_type: info.media_type,
                            },
                        ]
                    } else {
                        Seq::empty()
                    };
                    let after_state = if info.state_changed {
                        with_link_active(old(state).items(), id, info.active)
                    } else {
                        old(state).items()
                    };
                    let after_format = if info.format_changed {
                        with_media_type(after_state, id, info.media_type)
                    } else {
                        after_state
                    };
                    &&& msgs@ == state_msgs + format_msgs
                    &&& final(state).items() == after_format
                    &&& final(state).counters() == old(state).counters()
                    &&& forall|f: u32, t: u32| #![trigger final(state).spec_get_link_id(f, t)]
                        final(state).spec_get_link_id(f, t) == old(state).spec_get_link_id(f, t)
                } else {
                    // First info: the link enters the store with its index entry.
                    &&& old(state).has_port(info.output_port_id)
                    &&& old(state).has_port(info.input_port_id)
                    &&& old(state).spec_get_link_id(info.output_port_id, info.input_port_id)
                        is None
                    &&& msgs@ == seq![
                        PipewireMessage::LinkAdded {
                            id,
                            output_port_id: info.output_port_id,
                            input_port_id: info.input_port_id,
                            active: info.active,
                            media_type: info.media_type,
                        },
                    ]
                    &&& final(state).items() == old(state).items().insert(
                        id,
                        Item::Link {
                            port_from: info.output_port_id,
                            port_to: info.input_port_id,
                            active: info.active,
                            media_type: info.media_type,
                        },
                    )
                    &&& final(state).counters() == old(state).counters()
                    &&& forall|f: u32, t: u32| #![trigger final(state).spec_get_link_id(f, t)]
                        final(state).spec_get_link_id(f, t) == if f == info.output_port_id && t
                            == info.input_port_id {
                            Some(id)
                        } else {
                            old(state).spec_get_link_id(f, t)
                        }
                }
            },
            Err(IngestError::UnresolvedPort) => {
                &&& !old(state).items().contains_key(id)
                &&& !(old(state).has_port(info.output_port_id) && old(state).has_port(
                    info.input_port_id,
                ))
                &&& store_unchanged(*old(state), *final(state))
            },
            Err(IngestError::DuplicateLinkPair) => {
                &&& !old(state).items().contains_key(id)
                &&& old(state).has_port(info.output_port_id)
                &&& old(state).has_port(info.input_port_id)
                &&& old(state).spec_get_link_id(info.output_port_id, info.input_port_id) is Some
                &&& store_unchanged(*old(state), *final(state))
            },
            Err(_) => false,
        },
{
    let tracked_link = match state.get(id) {
        Some(Item::Link { .. }) => true,
        _ => false,
    };
    if tracked_link {
        let mut msgs: Vec<PipewireMessage> = Vec::new();
        if info.state_changed {
            let updated = state.set_link_active(id, info.active);
            proof {
                assert(updated);
            }
            msgs.push(PipewireMessage::LinkStateChanged { id, active: info.active });
        }
        if info.format_changed {
            let updated = state.set_media_type(id, info.media_type);
            proof {
                assert(updated);
            }
            msgs.push(
                PipewireMessage::LinkFormatChanged { id, media_type: info.media_type },
            );
        }
        return Ok(msgs);
    }
    let output_ok = match state.get(info.output_port_id) {
        Some(Item::Port { .. }) => true,
        _ => false,
    };
    let input_ok = match state.get(info.input_port_id) {
        Some(Item::Port { .. }) => true,
        _ => false,
    };
    if !(output_ok && input_ok) {
        return Err(IngestError::UnresolvedPort);
    }
    if state.get_link_id(info.output_port_id, info.input_port_id).is_some() {
        return Err(IngestError::DuplicateLinkPair);
    }
    state.insert(
        id,
        Item::Link {
            port_from: info.output_port_id,
            port_to: info.input_port_id,
            active: info.active,
            media_type: info.media_type,
        },
    );
    let mut msgs: Vec<PipewireMessage> = Vec::new();
    msgs.push(
        PipewireMessage::LinkAdded {
            id,
            output_port_id: info.output_port_id,
            input_port_id: info.input_port_id,
            active: info.active,
            media_type: info.media_type,
        },
    );
    Ok(msgs)
}

/// Handle a client's appearance: track it under its application name and
/// produce the normalized message announcing it.
pub fn handle_client(state: &mut State, id: u32, props: Option<&ClientProps>) -> (r: Result<
    PipewireMessage,
    IngestError,
>)
    requires
        old(state).wf(),
        !old(state).items().contains_key(id),
    ensures
        final(state).wf(),
        match r {
            Ok(msg) => {
                &&& props matches Some(p)
                &&& msg matches PipewireMessage::ClientAdded { id: mid, name } && mid == id
                    && name@ == opt_name_view(p.application_name)
                &&& final(state).items() == old(state).items().insert(
                    id,
                    final(state).items()[id],
                )
                &&& is_client_item(final(state).items()[id], opt_name_view(p.application_name))
                &&& final(state).counters() == old(state).counters()
                &&& forall|f: u32, t: u32| #![trigger final(state).spec_get_link_id(f, t)]
                    final(state).spec_get_link_id(f, t) == old(state).spec_get_link_id(f, t)
            },
            Err(e) => {
                &&& e == IngestError::MissingProperty
                &&& props is None
                &&& store_unchanged(*old(state), *final(state))
            },
        },
{
    let p = match props {
        Some(p) => p,
        None => {
            return Err(IngestError::MissingProperty);
        },
    };
    let name = match &p.application_name {
        Some(n) => n.clone(),
        None => String::new(),
    };
    state.insert(id, Item::Client { name: name.clone() });
    Ok(PipewireMessage::ClientAdded { id, name })
}

/// Handle a removal notification: forget the object and derive the
/// normalized removal message from the kind of object removed — a port
/// removal names its owning node so the projection can find the widget.
/// A removal for an untracked id is dropped; removing twice is harmless.
pub fn handle_removed(state: &mut State, id: u32) -> (r: Option<PipewireMessage>)
    requires
        old(state).wf(),
    ensures
        final(state).wf(),
        match r {
            None => {
                &&& !old(state).items().contains_key(id)
                &&& store_unchanged(*old(state), *final(state))
            },
            Some(msg) => {
                &&& old(state).items().contains_key(id)
                &&& msg == (match old(state).items()[id] {
                    Item::Client { .. } => PipewireMessage::ClientRemoved { id },
                    Item::Node { .. } => PipewireMessage::NodeRemoved { id },
                    Item::Port { node_id, .. } => PipewireMessage::PortRemoved { id, node_id },
                    Item::Link { .. } => PipewireMessage::LinkRemoved { id },
                })
                &&& final(state).items() == old(state).items().remove(id)
                &&& final(state).counters() == counters_after_remove(
                    old(state).counters(),
                    old(state).items()[id],
                )
                &&& forall|f: u32, t: u32| #![trigger final(state).spec_get_link_id(f, t)]
                    final(state).spec_get_link_id(f, t) == if link_pair_matches(
                        old(state).items()[id],
                        f,
                        t,
                    ) {
                        None
                    } else {
                        old(state).spec_get_link_id(f, t)
                    }
            },
        },
{
    match state.remove(id) {
        Some(item) => Some(
            match item {
                Item::Client { .. } => PipewireMessage::ClientRemoved { id },
                Item::Node { .. } => PipewireMessage::NodeRemoved { id },
                Item::Port { node_id, .. } => PipewireMessage::PortRemoved { id, node_id },
                Item::Link { .. } => PipewireMessage::LinkRemoved { id },
            },
        ),
        None => None,
    }
}

} // verus!
