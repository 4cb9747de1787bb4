//! The presentation projection's bookkeeping: a UI-facing mirror of the
//! graph, keyed by the same remote ids as the store but owned by the
//! presentation thread and updated only from normalized messages.  Each
//! method answers whether the corresponding widget operation should happen;
//! a message naming an unknown or mismatched id changes nothing and is
//! quietly dropped — the mirror never references a deleted object.

use vstd::prelude::*;

use crate::{Direction, MediaType, NodeType};

verus! {

/// One element of the mirror, standing for the widget displayed under an id.
#[derive(Clone, Debug, PartialEq, Eq)]
pub enum GraphItem {
    Node { name: String, node_type: Option<NodeType> },
    Port { name: String, node_id: u32, direction: Direction, media_type: Option<MediaType> },
    Link { output_port_id: u32, input_port_id: u32, active: bool, media_type: Option<MediaType> },
}

/// What the mirror looks like after updating the media type of the port
/// displayed under `id`; any other kind of item or an absent id leaves it
/// as it was.
pub open spec fn with_port_media(
    items: Map<u32, GraphItem>,
    id: u32,
    media_type: Option<MediaType>,
) -> Map<u32, GraphItem> {
    if items.contains_key(id) {
        match items[id] {
            GraphItem::Port { name, node_id, direction, .. } => items.insert(
                id,
                GraphItem::Port { name, node_id, direction, media_type },
            ),
            _ => items,
        }
    } else {
        items
    }
}

/// What the mirror looks like after updating the active flag of the link
/// displayed under `id`.
pub open spec fn with_graph_link_active(
    items: Map<u32, GraphItem>,
    id: u32,
    active: bool,
) -> Map<u32, GraphItem> {
    if items.contains_key(id) {
        match items[id] {
            GraphItem::Link { output_port_id, input_port_id, media_type, .. } => items.insert(
                id,
                GraphItem::Link { output_port_id, input_port_id, active, media_type },
            ),
            _ => items,
        }
    } else {
        items
    }
}

/// What the mirror looks like after updating the media type of the link
/// displayed under `id`.
pub open spec fn with_graph_link_media(
    items: Map<u32, GraphItem>,
    id: u32,
    media_type: Option<MediaType>,
) -> Map<u32, GraphItem> {
    if items.contains_key(id) {
        match items[id] {
            GraphItem::Link { output_port_id, input_port_id, active, .. } => items.insert(
                id,
                GraphItem::Link { output_port_id, input_port_id, active, media_type },
            ),
            _ => items,
        }
    } else {
        items
    }
}

/// The mirror of the displayed graph.
pub struct GraphManager {
    items: vstd::hash_map::HashMapWithView<u32, GraphItem>,
}

impl GraphManager {
    /// The mirrored items, as a map from id to item.
    pub closed spec fn items(&self) -> Map<u32, GraphItem> {
        self.items@
    }

    /// A fresh, empty mirror.
    pub fn new() -> (r: Self)
        ensures
            r.items() == Map::<u32, GraphItem>::empty(),
    {
        GraphManager { items: vstd::hash_map::HashMapWithView::new() }
    }

    /// The number of mirrored items.
    pub fn len(&self) -> (n: usize)
        ensures
            n == self.items().len(),
    {
        self.items.len()
    }

    /// Look up the item displayed under `id`.
    pub fn get(&self, id: u32) -> (r: Option<&GraphItem>)
        ensures
            match r {
                Some(item) => self.items().contains_key(id) && *item == self.items()[id],
                None => !self.items().contains_key(id),
            },
    {
        self.items.get(&id)
    }

    /// A node was announced: mirror it under its id.
    pub fn add_node(&mut self, id: u32, name: String, node_type: Option<NodeType>)
        ensures
            final(self).items() == old(self).items().insert(id, final(self).items()[id]),
            final(self).items()[id] matches GraphItem::Node { name: n, node_type: t } && n@ == name@
                && t == node_type,
    {
        self.items.insert(id, GraphItem::Node { name, node_type });
    }

    /// A node was renamed: update the mirrored name.  Answers whether a
    /// node is displayed under the id.
    pub fn set_node_name(&mut self, id: u32, name: String) -> (r: bool)
        ensures
            r == (old(self).items().contains_key(id) && old(self).items()[id] is Node),
            if r {
                final(self).items() == old(self).items().insert(id, final(self).items()[id])
                    && (final(self).items()[id] matches GraphItem::Node { name: n, node_type }
                    && n@ == name@ && node_type == old(self).items()[id]->node_type)
            } else {
                final(self).items() == old(self).items()
            },
    {
        let node_type = match self.items.get(&id) {
            Some(GraphItem::Node { node_type, .. }) => Some(*node_type),
            _ => None,
        };
        match node_type {
            Some(node_type) => {
                self.items.insert(id, GraphItem::Node { name, node_type });
                true
            },
            None => false,
        }
    }

    /// A node went away: drop it from the mirror.  Answers whether a node
    /// was displayed under the id, so the caller knows to detach a widget.
    pub fn remove_node(&mut self, id: u32) -> (r: bool)
        ensures
            r == (old(self).items().contains_key(id) && old(self).items()[id] is Node),
            final(self).items() == if r {
                old(self).items().remove(id)
            } else {
                old(self).items()
            },
    {
        let is_node = match self.items.get(&id) {
            Some(GraphItem::Node { .. }) => true,
            _ => false,
        };
        if is_node {
            self.items.remove(&id);
            true
        } else {
            false
        }
    }

    /// A port was announced: mirror it on its owning node.  The port is
    /// dropped when no node is displayed under `node_id` — the mirror
    /// never shows a port on a missing node.
    pub fn add_port(&mut self, id: u32, name: String, node_id: u32, direction: Direction) -> (r:
        bool)
        ensures
            r == (old(self).items().contains_key(node_id) && old(self).items()[node_id] is Node),
            if r {
                final(self).items() == old(self).items().insert(id, final(self).items()[id])
                    && (final(self).items()[id] matches GraphItem::Port {
                        name: n,
                        node_id: nid,
                        direction: d,
                        media_type: m,
                    } && n@ == name@ && nid == node_id && d == direction && m is None)
            } else {
                final(self).items() == old(self).items()
            },
    {
        let node_known = match self.items.get(&node_id) {
            Some(GraphItem::Node { .. }) => true,
            _ => false,
        };
        if !node_known {
            return false;
        }
        self.items.insert(id, GraphItem::Port { name, node_id, direction, media_type: None });
        true
    }

    /// A port's negotiated format changed: update the mirrored media type.
    /// Answers whether a port is displayed under the id.
    pub fn port_media_type_changed(&mut self, id: u32, media_type: Option<MediaType>) -> (r: bool)
        ensures
            r == (old(self).items().contains_key(id) && old(self).items()[id] is Port),
            final(self).items() == with_port_media(old(self).items(), id, media_type),
    {
        let found = match self.items.get(&id) {
            Some(GraphItem::Port { name, node_id, direction, .. }) => Some(
                (name.clone(), *node_id, *direction),
            ),
            _ => None,
        };
        match found {
            Some((name, node_id, direction)) => {
                self.items.insert(id, GraphItem::Port { name, node_id, direction, media_type });
                true
            },
            None => false,
        }
    }

    /// A port went away: drop it from the mirror, provided its owning node
    /// and the port itself are displayed.  Answers whether they were.
    pub fn remove_port(&mut self, id: u32, node_id: u32) -> (r: bool)
        ensures
            r == (old(self).items().contains_key(node_id) && old(self).items()[node_id] is Node
                && old(self).items().contains_key(id) && old(self).items()[id] is Port),
            final(self).items() == if r {
                old(self).items().remove(id)
            } else {
                old(self).items()
            },
    {
        let node_known = match self.items.get(&node_id) {
            Some(GraphItem::Node { .. }) => true,
            _ => false,
        };
        if !node_known {
            return false;
        }
        let is_port = match self.items.get(&id) {
            Some(GraphItem::Port { .. }) => true,
            _ => false,
        };
        if !is_port {
            return false;
        }
        self.items.remove(&id);
        true
    }

    /// A link was announced: mirror it, provided both of its ports are
    /// displayed.  Answers whether they were.
    pub fn add_link(
        &mut self,
        id: u32,
        output_port_id: u32,
        input_port_id: u32,
        active: bool,
        media_type: Option<MediaType>,
    ) -> (r: bool)
        ensures
            r == (old(self).items().contains_key(output_port_id)
                && old(self).items()[output_port_id] is Port && old(self).items().contains_key(
                input_port_id,
            ) && old(self).items()[input_port_id] is Port),
            if r {
                final(self).items() == old(self).items().insert(
                    id,
                    GraphItem::Link { output_port_id, input_port_id, active, media_type },
                )
            } else {
                final(self).items() == old(self).items()
            },
    {
        let output_known = match self.items.get(&output_port_id) {
            Some(GraphItem::Port { .. }) => true,
            _ => false,
        };
        let input_known = match self.items.get(&input_port_id) {
            Some(GraphItem::Port { .. }) => true,
            _ => false,
        };
        if !(output_known && input_known) {
            return false;
        }
        self.items.insert(id, GraphItem::Link { output_port_id, input_port_id, active, media_type });
        true
    }

    /// A link's state changed: update the mirrored active flag.  Answers
    /// whether a link is displayed under the id.
    pub fn link_state_changed(&mut self, id: u32, active: bool) -> (r: bool)
        ensures
            r == (old(self).items().contains_key(id) && old(self).items()[id] is Link),
            final(self).items() == with_graph_link_active(old(self).items(), id, active),
    {
        let found = match self.items.get(&id) {
            Some(GraphItem::Link { output_port_id, input_port_id, media_type, .. }) => Some(
                (*output_port_id, *input_port_id, *media_type),
            ),
            _ => None,
        };
        match found {
            Some((output_port_id, input_port_id, media_type)) => {
                self.items.insert(
                    id,
                    GraphItem::Link { output_port_id, input_port_id, active, media_type },
                );
                true
            },
            None => false,
        }
    }

    /// A link's format changed: update the mirrored media type.  Answers
    /// whether a link is displayed under the id.
    pub fn link_format_changed(&mut self, id: u32, media_type: Option<MediaType>) -> (r: bool)
        ensures
            r == (old(self).items().contains_key(id) && old(self).items()[id] is Link),
            final(self).items() == with_graph_link_media(old(self).items(), id, media_type),
    {
        let found = match self.items.get(&id) {
            Some(GraphItem::Link { output_port_id, input_port_id, active, .. }) => Some(
                (*output_port_id, *input_port_id, *active),
            ),
            _ => None,
        };
        match found {
            Some((output_port_id, input_port_id, active)) => {
                self.items.insert(
                    id,
                    GraphItem::Link { output_port_id, input_port_id, active, media_type },
                );
                true
            },
            None => false,
        }
    }

    /// A link went away: drop it from the mirror.  Answers whether a link
    /// was displayed under the id.
    pub fn remove_link(&mut self, id: u32) -> (r: bool)
        ensures
            r == (old(self).items().contains_key(id) && old(self).items()[id] is Link),
            final(self).items() == if r {
                old(self).items().remove(id)
            } else {
                old(self).items()
            },
    {
        let is_link = match self.items.get(&id) {
            Some(GraphItem::Link { .. }) => true,
            _ => false,
        };
        if is_link {
            self.items.remove(&id);
            true
        } else {
            false
        }
    }

    /// The connection was lost: clear the whole mirror.
    pub fn clear(&mut self)
        ensures
            final(self).items() == Map::<u32, GraphItem>::empty(),
    {
        self.items.clear();
    }
}

} // verus!
