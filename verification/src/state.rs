//! The object state store: an identifier-indexed record of every remote
//! object the backend tracks, together with the derived index mapping a
//! `(output port, input port)` pair to the id of the link connecting them
//! and the per-basename counter table used to coin unique node idents.

use vstd::prelude::*;
use vstd::set_lib::lemma_len_subset;

use crate::Direction;
use crate::MediaType;

verus! {

/// Any remote item the store keeps track of, keyed externally by its id.
#[derive(Clone, Debug, PartialEq, Eq)]
pub enum Item {
    Client {
        /// The client's application name.
        name: String,
    },
    Node {
        /// The media kind of the node, once format negotiation has settled it.
        media_type: Option<MediaType>,
        /// The display name the node appeared under; recurring names share a
        /// counter in the store so idents coined from them stay unique.
        ident_base: String,
    },
    Port {
        /// The node this port sits on; the referenced node is tracked at the
        /// time the port is inserted.
        node_id: u32,
        /// Whether the port consumes or produces data; fixed for the port's
        /// lifetime.
        direction: Direction,
        /// The media kind of the port, once known.
        media_type: Option<MediaType>,
    },
    Link {
        /// The output port the link starts at.
        port_from: u32,
        /// The input port the link ends at.
        port_to: u32,
        /// Whether the link is actively streaming.
        active: bool,
        /// The media kind flowing over the link, once known.
        media_type: Option<MediaType>,
    },
}

/// The counter entry kept per node basename: how many tracked nodes
/// currently carry the basename, and the last ident increment handed out.
#[derive(Clone, Copy, Debug, PartialEq, Eq, Structural)]
pub struct IdentEntry {
    /// Number of tracked nodes whose `ident_base` is this entry's key.
    pub live: u64,
    /// Last auto-increment value used for an ident with this basename.
    pub next: u32,
}

/// The key under which a link between `output_port` and `input_port` is
/// stored in the pair index.
pub open spec fn pair_key(output_port: u32, input_port: u32) -> u64 {
    ((output_port as int) * 0x1_0000_0000 + (input_port as int)) as u64
}

/// Whether `item` is a link connecting exactly `output_port` to `input_port`.
pub open spec fn link_pair_matches(item: Item, output_port: u32, input_port: u32) -> bool {
    item matches Item::Link { port_from, port_to, .. }
        && port_from == output_port
        && port_to == input_port
}

/// Whether `item` is a node whose basename is `base`.
pub open spec fn is_node_with_base(item: Item, base: Seq<char>) -> bool {
    item matches Item::Node { ident_base, .. } && ident_base@ == base
}

/// The ids of all nodes in `items` whose basename is `base`.
pub open spec fn nodes_with_base(items: Map<u32, Item>, base: Seq<char>) -> Set<u32> {
    items.dom().filter(|id: u32| is_node_with_base(items[id], base))
}

/// How the counter table changes when a node item is inserted: its basename
/// gains one live holder, keeping the ident increment already handed out.
pub open spec fn counters_after_insert(
    counters: Map<Seq<char>, IdentEntry>,
    item: Item,
) -> Map<Seq<char>, IdentEntry> {
    match item {
        Item::Node { ident_base, .. } => {
            if counters.contains_key(ident_base@) {
                let e = counters[ident_base@];
                counters.insert(ident_base@, IdentEntry { live: (e.live + 1) as u64, next: e.next })
            } else {
                counters.insert(ident_base@, IdentEntry { live: 1, next: 0 })
            }
        },
        _ => counters,
    }
}

/// How the counter table changes when a node item is removed: its basename
/// loses one live holder, and the entry is dropped — resetting the ident
/// auto-increment — once no holder remains.
pub open spec fn counters_after_remove(
    counters: Map<Seq<char>, IdentEntry>,
    item: Item,
) -> Map<Seq<char>, IdentEntry> {
    match item {
        Item::Node { ident_base, .. } => {
            if counters.contains_key(ident_base@) {
                let e = counters[ident_base@];
                if e.live <= 1 {
                    counters.remove(ident_base@)
                } else {
                    counters.insert(
                        ident_base@,
                        IdentEntry { live: (e.live - 1) as u64, next: e.next },
                    )
                }
            } else {
                counters
            }
        },
        _ => counters,
    }
}

/// What the item map looks like after updating the media type of `id` in
/// place: only that field of that item changes, and a client (which carries
/// no media type) or an absent id leaves the map as it was.
pub open spec fn with_media_type(
    items: Map<u32, Item>,
    id: u32,
    media_type: Option<MediaType>,
) -> Map<u32, Item> {
    if items.contains_key(id) {
        match items[id] {
            Item::Node { ident_base, .. } => items.insert(id, Item::Node { media_type, ident_base }),
            Item::Port { node_id, direction, .. } => items.insert(
                id,
                Item::Port { node_id, direction, media_type },
            ),
            Item::Link { port_from, port_to, active, .. } => items.insert(
                id,
                Item::Link { port_from, port_to, active, media_type },
            ),
            Item::Client { .. } => items,
        }
    } else {
        items
    }
}

/// What the item map looks like after updating the active flag of the link
/// tracked under `id`: only that field of that link changes, and any other
/// kind of item or an absent id leaves the map as it was.
pub open spec fn with_link_active(items: Map<u32, Item>, id: u32, active: bool) -> Map<u32, Item> {
    if items.contains_key(id) {
        match items[id] {
            Item::Link { port_from, port_to, media_type, .. } => items.insert(
                id,
                Item::Link { port_from, port_to, active, media_type },
            ),
            _ => items,
        }
    } else {
        items
    }
}

/// Packing two 32-bit port ids into one index key loses nothing.
pub proof fn lemma_pair_key_injective(f1: u32, t1: u32, f2: u32, t2: u32)
    requires
        pair_key(f1, t1) == pair_key(f2, t2),
    ensures
        f1 == f2 && t1 == t2,
{
}

/// The store of tracked remote objects, with the derived port-pair index
/// and the per-basename ident counters.
pub struct State {
    /// Remote ids to items.
    items: vstd::hash_map::HashMapWithView<u32, Item>,
    /// `pair_key(output port id, input port id)` to the id of the link that
    /// connects the two ports.
    links: vstd::hash_map::HashMapWithView<u64, u32>,
    /// Node basename to its live-holder count and last ident increment.
    counters: vstd::hash_map::StringHashMap<IdentEntry>,
}

impl State {
    /// The tracked items, as a map from id to item.
    pub closed spec fn items(&self) -> Map<u32, Item> {
        self.items@
    }

    /// The counter table, as a map from basename to its entry.
    pub closed spec fn counters(&self) -> Map<Seq<char>, IdentEntry> {
        self.counters@
    }

    /// What the pair index answers for `(output_port, input_port)`.
    pub closed spec fn spec_get_link_id(&self, output_port: u32, input_port: u32) -> Option<u32> {
        if self.links@.contains_key(pair_key(output_port, input_port)) {
            Some(self.links@[pair_key(output_port, input_port)])
        } else {
            None
        }
    }

    /// Whether `id` is tracked as a node.
    pub open spec fn has_node(&self, id: u32) -> bool {
        self.items().contains_key(id) && self.items()[id] is Node
    }

    /// Whether `id` is tracked as a port.
    pub open spec fn has_port(&self, id: u32) -> bool {
        self.items().contains_key(id) && self.items()[id] is Port
    }

    /// What `get_node_of_port` answers: the owning node id of a tracked port.
    pub open spec fn spec_node_of_port(&self, port: u32) -> Option<u32> {
        if self.items().contains_key(port) {
            match self.items()[port] {
                Item::Port { node_id, .. } => Some(node_id),
                _ => None,
            }
        } else {
            None
        }
    }

    /// The store's invariant.
    ///
    /// The pair index is exactly the set of tracked links: every index entry
    /// points at a tracked link item whose ports pack to the entry's key, and
    /// every tracked link item has its index entry.  Every counter entry's
    /// live count equals the number of tracked nodes carrying its basename,
    /// and a basename carried by some tracked node has a counter entry.
    pub closed spec fn wf(&self) -> bool {
        &&& self.items@.dom().finite()
        &&& forall|k: u64| #[trigger]
            self.links@.contains_key(k) ==> {
                let id = self.links@[k];
                &&& self.items@.contains_key(id)
                &&& self.items@[id] matches Item::Link { port_from, port_to, .. }
                    && pair_key(port_from, port_to) == k
            }
        &&& forall|id: u32| #[trigger]
            self.items@.contains_key(id) ==> match self.items@[id] {
                Item::Link { port_from, port_to, .. } => {
                    &&& self.links@.contains_key(pair_key(port_from, port_to))
                    &&& self.links@[pair_key(port_from, port_to)] == id
                },
                _ => true,
            }
        &&& forall|b: Seq<char>| #[trigger]
            self.counters@.contains_key(b) ==> self.counters@[b].live == nodes_with_base(
                self.items@,
                b,
            ).len()
        &&& forall|b: Seq<char>|
            #![trigger nodes_with_base(self.items@, b)]
            nodes_with_base(self.items@, b).len() != 0 ==> self.counters@.contains_key(b)
    }

    /// Create a new, empty state.
    pub fn new() -> (s: Self)
        ensures
            s.wf(),
            s.items() == Map::<u32, Item>::empty(),
            s.counters() == Map::<Seq<char>, IdentEntry>::empty(),
            forall|f: u32, t: u32| #[trigger] s.spec_get_link_id(f, t) is None,
    {
        let s = State {
            items: vstd::hash_map::HashMapWithView::new(),
            links: vstd::hash_map::HashMapWithView::new(),
            counters: vstd::hash_map::StringHashMap::new(),
        };
        proof {
            assert forall|b: Seq<char>|
                #![trigger nodes_with_base(s.items@, b)]
                nodes_with_base(s.items@, b).len() == 0 by {
                assert(nodes_with_base(s.items@, b) =~= Set::<u32>::empty());
            }
        }
        s
    }

    /// The number of tracked items.
    pub fn len(&self) -> (n: usize)
        ensures
            n == self.items().len(),
    {
        self.items.len()
    }

    /// Get the item that has the specified id.
    pub fn get(&self, id: u32) -> (r: Option<&Item>)
        ensures
            match r {
                Some(item) => self.items().contains_key(id) && *item == self.items()[id],
                None => !self.items().contains_key(id),
            },
    {
        self.items.get(&id)
    }

    /// Get the id of the link that links the two specified ports.
    pub fn get_link_id(&self, output_port: u32, input_port: u32) -> (r: Option<u32>)
        ensures
            r == self.spec_get_link_id(output_port, input_port),
    {
        match self.links.get(&pair_key_exec(output_port, input_port)) {
            Some(id) => Some(*id),
            None => None,
        }
    }

    /// Convenience lookup: the id of the node a tracked port sits on.
    pub fn get_node_of_port(&self, port: u32) -> (r: Option<u32>)
        ensures
            r == self.spec_node_of_port(port),
    {
        match self.get(port) {
            Some(Item::Port { node_id, .. }) => Some(*node_id),
            _ => None,
        }
    }

    /// Add a new item under the specified id.
    ///
    /// Calling this twice for one id is a programmer error, as is inserting a
    /// port whose owning node is unknown or a link whose ports do not both
    /// resolve to tracked ports; the event-ingestion layer checks these
    /// conditions before the call.  If the item is a link, its pair-index
    /// entry is inserted in the same step.
    pub fn insert(&mut self, id: u32, item: Item)
        requires
            old(self).wf(),
            !old(self).items().contains_key(id),
            item matches Item::Port { node_id, .. } ==> old(self).has_node(node_id),
            item matches Item::Link { port_from, port_to, .. } ==> {
                &&& old(self).has_port(port_from)
                &&& old(self).has_port(port_to)
                &&& old(self).spec_get_link_id(port_from, port_to) is None
            },
        ensures
            final(self).wf(),
            final(self).items() == old(self).items().insert(id, item),
            forall|f: u32, t: u32| #![trigger final(self).spec_get_link_id(f, t)]
                final(self).spec_get_link_id(f, t) == if link_pair_matches(item, f, t) {
                    Some(id)
                } else {
                    old(self).spec_get_link_id(f, t)
                },
            final(self).counters() == counters_after_insert(old(self).counters(), item),
    {
        let ghost old_items = self.items@;
        if let Item::Link { port_from, port_to, .. } = &item {
            let k = pair_key_exec(*port_from, *port_to);
            self.links.insert(k, id);
        }
        let base_opt: Option<String> = match &item {
            Item::Node { ident_base, .. } => Some(ident_base.clone()),
            _ => None,
        };
        self.items.insert(id, item);
        // The map length after the insert bounds the live counter from above,
        // so incrementing it below cannot overflow.
        let n = self.items.len();
        proof {
            lemma_nodes_with_base_insert(old_items, id, item);
        }
        if let Some(base) = base_opt {
            match self.counters.get(base.as_str()) {
                Some(e) => {
                    let live = e.live;
                    let next = e.next;
                    proof {
                        let b = base@;
                        assert(old(self).counters()[b].live == nodes_with_base(old_items, b).len());
                        lemma_len_subset(nodes_with_base(old_items, b), old_items.dom());
                        assert(self.items@.dom() =~= old_items.dom().insert(id));
                        assert(old_items.dom().len() == n - 1);
                        assert(live < u64::MAX);
                    }
                    self.counters.insert(base, IdentEntry { live: live + 1, next });
                },
                None => {
                    self.counters.insert(base, IdentEntry { live: 1, next: 0 });
                },
            }
        }
        proof {
            self.lemma_wf_after_insert(*old(self), id);
        }
    }

    /// Both index-related invariant clauses and the exact pair-index change
    /// hold after `items` gained the fresh entry `id` and, for a link, the
    /// pair index gained its entry; the counter clauses hold after the
    /// counter table change of `counters_after_insert`.
    proof fn lemma_wf_after_insert(&self, pre: State, id: u32)
        requires
            pre.wf(),
            !pre.items().contains_key(id),
            self.items@ == pre.items@.insert(id, self.items@[id]),
            self.items@.contains_key(id),
            self.items@[id] matches Item::Port { node_id, .. } ==> pre.has_node(node_id),
            self.items@[id] matches Item::Link { port_from, port_to, .. } ==> {
                &&& pre.has_port(port_from)
                &&& pre.has_port(port_to)
                &&& pre.spec_get_link_id(port_from, port_to) is None
            },
            self.links@ == match self.items@[id] {
                Item::Link { port_from, port_to, .. } => pre.links@.insert(
                    pair_key(port_from, port_to),
                    id,
                ),
                _ => pre.links@,
            },
            self.counters@ == counters_after_insert(pre.counters@, self.items@[id]),
            match self.items@[id] {
                Item::Node { ident_base, .. } => pre.counters@.contains_key(ident_base@)
                    ==> pre.counters@[ident_base@].live < u64::MAX,
                _ => true,
            },
        ensures
            self.wf(),
            forall|f: u32, t: u32| #![trigger self.spec_get_link_id(f, t)]
                self.spec_get_link_id(f, t) == if link_pair_matches(self.items@[id], f, t) {
                    Some(id)
                } else {
                    pre.spec_get_link_id(f, t)
                },
    {
        let item = self.items@[id];
        lemma_nodes_with_base_insert(pre.items@, id, item);
        // Index soundness: every index entry still points at a matching link.
        assert forall|k: u64| #[trigger] self.links@.contains_key(k) implies {
            let lid = self.links@[k];
            &&& self.items@.contains_key(lid)
            &&& self.items@[lid] matches Item::Link { port_from, port_to, .. }
                && pair_key(port_from, port_to) == k
        } by {
            match item {
                Item::Link { port_from, port_to, .. } => {
                    if k != pair_key(port_from, port_to) {
                        assert(pre.links@.contains_key(k));
                    }
                },
                _ => {
                    assert(pre.links@.contains_key(k));
                },
            }
        }
        // Index completeness: every tracked link still has its index entry.
        assert forall|i: u32| #[trigger] self.items@.contains_key(i) implies match self.items@[i] {
            Item::Link { port_from, port_to, .. } => {
                &&& self.links@.contains_key(pair_key(port_from, port_to))
                &&& self.links@[pair_key(port_from, port_to)] == i
            },
            _ => true,
        } by {
            if i != id {
                match (pre.items@[i], item) {
                    (
                        Item::Link { port_from, port_to, .. },
                        Item::Link { port_from: pf, port_to: pt, .. },
                    ) => {
                        assert(pre.links@.contains_key(pair_key(port_from, port_to)));
                        if pair_key(port_from, port_to) == pair_key(pf, pt) {
                            lemma_pair_key_injective(port_from, port_to, pf, pt);
                        }
                    },
                    _ => {},
                }
            }
        }
        // The exact pair-index change.
        assert forall|f: u32, t: u32| #![trigger self.spec_get_link_id(f, t)]
            self.spec_get_link_id(f, t) == if link_pair_matches(item, f, t) {
                Some(id)
            } else {
                pre.spec_get_link_id(f, t)
            } by {
            match item {
                Item::Link { port_from, port_to, .. } => {
                    if !(f == port_from && t == port_to) && pair_key(f, t) == pair_key(
                        port_from,
                        port_to,
                    ) {
                        lemma_pair_key_injective(f, t, port_from, port_to);
                    }
                },
                _ => {},
            }
        }
        // Counter exactness for every basename.
        assert forall|b: Seq<char>| #[trigger]
            self.counters@.contains_key(b) implies self.counters@[b].live == nodes_with_base(
            self.items@,
            b,
        ).len() by {
            lemma_len_subset(nodes_with_base(pre.items@, b), pre.items@.dom());
            match item {
                Item::Node { ident_base, .. } => {
                    if b == ident_base@ {
                        assert(nodes_with_base(self.items@, b) == nodes_with_base(
                            pre.items@,
                            b,
                        ).insert(id));
                        assert(nodes_with_base(pre.items@, b).insert(id).len() == nodes_with_base(
                            pre.items@,
                            b,
                        ).len() + 1);
                        if !pre.counters@.contains_key(b) {
                            assert(nodes_with_base(pre.items@, b).len() == 0);
                        }
                    } else {
                        assert(nodes_with_base(self.items@, b) == nodes_with_base(pre.items@, b));
                    }
                },
                _ => {
                    assert(nodes_with_base(self.items@, b) == nodes_with_base(pre.items@, b));
                },
            }
        }
        assert forall|b: Seq<char>|
            #![trigger nodes_with_base(self.items@, b)]
            nodes_with_base(self.items@, b).len() != 0 implies self.counters@.contains_key(b) by {
            if !is_node_with_base(item, b) {
                assert(nodes_with_base(self.items@, b) == nodes_with_base(pre.items@, b));
            }
        }
    }

    /// Coin a display ident for a node appearing under `ident_base`: the
    /// basename followed by the next auto-increment value for it, so that
    /// recurring names stay distinguishable.  Returns `None` only when the
    /// basename's increment counter is exhausted.
    pub fn get_node_ident(&mut self, ident_base: String) -> (r: Option<String>)
        requires
            old(self).wf(),
        ensures
            final(self).wf(),
            final(self).items() == old(self).items(),
            forall|f: u32, t: u32| #![trigger final(self).spec_get_link_id(f, t)]
                final(self).spec_get_link_id(f, t) == old(self).spec_get_link_id(f, t),
            ({
                let e = if old(self).counters().contains_key(ident_base@) {
                    old(self).counters()[ident_base@]
                } else {
                    IdentEntry { live: 0, next: 0 }
                };
                if e.next < u32::MAX {
                    &&& r matches Some(ident) && ident@ == ident_base@ + crate::text::dec_digits(
                        e.next + 1,
                    )
                    &&& final(self).counters() == old(self).counters().insert(
                        ident_base@,
                        IdentEntry { live: e.live, next: (e.next + 1) as u32 },
                    )
                } else {
                    &&& r is None
                    &&& final(self).counters() == old(self).counters()
                }
            }),
    {
        let ghost base = ident_base@;
        let e = match self.counters.get(ident_base.as_str()) {
            Some(e) => *e,
            None => IdentEntry { live: 0, next: 0 },
        };
        if e.next == u32::MAX {
            return None;
        }
        let next = e.next + 1;
        self.counters.insert(ident_base.clone(), IdentEntry { live: e.live, next });
        proof {
            assert(self.items@ == old(self).items@);
            assert forall|b: Seq<char>| #[trigger]
                self.counters@.contains_key(b) implies self.counters@[b].live == nodes_with_base(
                self.items@,
                b,
            ).len() by {
                if b == base && !old(self).counters@.contains_key(b) {
                    // A fresh entry starts with no live holders, and indeed no
                    // tracked node carries the basename yet.
                    assert(nodes_with_base(old(self).items@, b).len() == 0);
                }
                assert(nodes_with_base(self.items@, b) == nodes_with_base(old(self).items@, b));
            }
            assert forall|b: Seq<char>|
                #![trigger nodes_with_base(self.items@, b)]
                nodes_with_base(self.items@, b).len() != 0 implies self.counters@.contains_key(
                b,
            ) by {
                assert(nodes_with_base(self.items@, b) == nodes_with_base(old(self).items@, b));
            }
        }
        let mut ident = ident_base;
        crate::text::push_dec(&mut ident, next);
        Some(ident)
    }

    /// Update the media type of the node, port or link tracked under `id`
    /// in place, leaving everything else — including a port's direction —
    /// as it was.  Answers whether such an item was found.
    pub fn set_media_type(&mut self, id: u32, media_type: Option<MediaType>) -> (r: bool)
        requires
            old(self).wf(),
        ensures
            final(self).wf(),
            r == (old(self).items().contains_key(id) && !(old(self).items()[id] is Client)),
            final(self).items() == with_media_type(old(self).items(), id, media_type),
            final(self).counters() == old(self).counters(),
            forall|f: u32, t: u32| #![trigger final(self).spec_get_link_id(f, t)]
                final(self).spec_get_link_id(f, t) == old(self).spec_get_link_id(f, t),
    {
        let updated: Option<Item> = match self.items.get(&id) {
            Some(Item::Node { ident_base, .. }) => Some(
                Item::Node { media_type, ident_base: ident_base.clone() },
            ),
            Some(Item::Port { node_id, direction, .. }) => Some(
                Item::Port { node_id: *node_id, direction: *direction, media_type },
            ),
            Some(Item::Link { port_from, port_to, active, .. }) => Some(
                Item::Link {
                    port_from: *port_from,
                    port_to: *port_to,
                    active: *active,
                    media_type,
                },
            ),
            _ => None,
        };
        match updated {
            Some(item) => {
                self.items.insert(id, item);
                proof {
                    self.lemma_wf_after_update(*old(self), id);
                }
                true
            },
            None => false,
        }
    }

    /// Update the active flag of the link tracked under `id` in place.
    /// Answers whether a link with that id was found.
    pub fn set_link_active(&mut self, id: u32, active: bool) -> (r: bool)
        requires
            old(self).wf(),
        ensures
            final(self).wf(),
            r == (old(self).items().contains_key(id) && old(self).items()[id] is Link),
            final(self).items() == with_link_active(old(self).items(), id, active),
            final(self).counters() == old(self).counters(),
            forall|f: u32, t: u32| #![trigger final(self).spec_get_link_id(f, t)]
                final(self).spec_get_link_id(f, t) == old(self).spec_get_link_id(f, t),
    {
        let updated: Option<Item> = match self.items.get(&id) {
            Some(Item::Link { port_from, port_to, media_type, .. }) => Some(
                Item::Link {
                    port_from: *port_from,
                    port_to: *port_to,
                    active,
                    media_type: *media_type,
                },
            ),
            _ => None,
        };
        match updated {
            Some(item) => {
                self.items.insert(id, item);
                proof {
                    self.lemma_wf_after_update(*old(self), id);
                }
                true
            },
            None => false,
        }
    }

    /// The invariant survives replacing a tracked item by one of the same
    /// kind that keeps its link ports and its node basename.
    proof fn lemma_wf_after_update(&self, pre: State, id: u32)
        requires
            pre.wf(),
            pre.items@.contains_key(id),
            self.items@ == pre.items@.insert(id, self.items@[id]),
            self.links@ == pre.links@,
            self.counters@ == pre.counters@,
            match (pre.items@[id], self.items@[id]) {
                (
                    Item::Link { port_from: f1, port_to: t1, .. },
                    Item::Link { port_from: f2, port_to: t2, .. },
                ) => f1 == f2 && t1 == t2,
                (Item::Node { ident_base: b1, .. }, Item::Node { ident_base: b2, .. }) => b1@
                    == b2@,
                (Item::Port { .. }, Item::Port { .. }) => true,
                (Item::Client { .. }, Item::Client { .. }) => true,
                _ => false,
            },
        ensures
            self.wf(),
    {
        assert(self.items@.dom() =~= pre.items@.dom());
        assert forall|b: Seq<char>|
            #![trigger nodes_with_base(self.items@, b)]
            nodes_with_base(self.items@, b) == nodes_with_base(pre.items@, b) by {
            assert(nodes_with_base(self.items@, b) =~= nodes_with_base(pre.items@, b));
        }
        assert forall|k: u64| #[trigger] self.links@.contains_key(k) implies {
            let lid = self.links@[k];
            &&& self.items@.contains_key(lid)
            &&& self.items@[lid] matches Item::Link { port_from, port_to, .. }
                && pair_key(port_from, port_to) == k
        } by {
            let lid = pre.links@[k];
            assert(pre.items@.contains_key(lid));
        }
        assert forall|i: u32| #[trigger] self.items@.contains_key(i) implies match self.items@[i] {
            Item::Link { port_from, port_to, .. } => {
                &&& self.links@.contains_key(pair_key(port_from, port_to))
                &&& self.links@[pair_key(port_from, port_to)] == i
            },
            _ => true,
        } by {
            assert(pre.items@.contains_key(i));
        }
        assert forall|b: Seq<char>| #[trigger]
            self.counters@.contains_key(b) implies self.counters@[b].live == nodes_with_base(
            self.items@,
            b,
        ).len() by {
            assert(nodes_with_base(self.items@, b) == nodes_with_base(pre.items@, b));
        }
        assert forall|b: Seq<char>|
            #![trigger nodes_with_base(self.items@, b)]
            nodes_with_base(self.items@, b).len() != 0 implies self.counters@.contains_key(b) by {
            assert(nodes_with_base(self.items@, b) == nodes_with_base(pre.items@, b));
        }
    }

    /// Remove the item with the specified id, returning it if it exists.
    ///
    /// Removing an absent id changes nothing and answers `None`, so a second
    /// removal of the same id is harmless.  Removing a link also removes its
    /// pair-index entry in the same step; removing a node releases its
    /// basename's counter entry once no node with that basename remains.
    pub fn remove(&mut self, id: u32) -> (r: Option<Item>)
        requires
            old(self).wf(),
        ensures
            final(self).wf(),
            match r {
                None => {
                    &&& !old(self).items().contains_key(id)
                    &&& final(self).items() == old(self).items()
                    &&& final(self).counters() == old(self).counters()
                    &&& forall|f: u32, t: u32| #![trigger final(self).spec_get_link_id(f, t)]
                        final(self).spec_get_link_id(f, t) == old(self).spec_get_link_id(f, t)
                },
                Some(item) => {
                    &&& old(self).items().contains_key(id)
                    &&& item == old(self).items()[id]
                    &&& final(self).items() == old(self).items().remove(id)
                    &&& forall|f: u32, t: u32| #![trigger final(self).spec_get_link_id(f, t)]
                        final(self).spec_get_link_id(f, t) == if link_pair_matches(item, f, t) {
                            None
                        } else {
                            old(self).spec_get_link_id(f, t)
                        }
                    &&& final(self).counters() == counters_after_remove(old(self).counters(), item)
                },
            },
    {
        let ghost old_items = self.items@;
        let removed = self.items.remove(&id);
        match &removed {
            Some(Item::Link { port_from, port_to, .. }) => {
                let k = pair_key_exec(*port_from, *port_to);
                self.links.remove(&k);
            },
            Some(Item::Node { ident_base, .. }) => {
                proof {
                    let b = ident_base@;
                    assert(nodes_with_base(old_items, b).contains(id));
                    lemma_len_subset(nodes_with_base(old_items, b), old_items.dom());
                    assert(nodes_with_base(old_items, b).len() == nodes_with_base(
                        old_items,
                        b,
                    ).remove(id).len() + 1);
                }
                match self.counters.get(ident_base.as_str()) {
                    Some(e) => {
                        let live = e.live;
                        let next = e.next;
                        if live <= 1 {
                            self.counters.remove(ident_base.as_str());
                        } else {
                            self.counters.insert(
                                ident_base.clone(),
                                IdentEntry { live: live - 1, next },
                            );
                        }
                    },
                    None => {
                        proof {
                            assert(false);
                        }
                    },
                }
            },
            _ => {},
        }
        proof {
            if removed is Some {
                self.lemma_wf_after_remove(*old(self), id);
            }
        }
        removed
    }

    /// The invariant and the exact pair-index change hold after the tracked
    /// item `id` left `items` together with, for a link, its index entry,
    /// and the counter table changed as `counters_after_remove` says.
    proof fn lemma_wf_after_remove(&self, pre: State, id: u32)
        requires
            pre.wf(),
            pre.items@.contains_key(id),
            self.items@ == pre.items@.remove(id),
            self.links@ == match pre.items@[id] {
                Item::Link { port_from, port_to, .. } => pre.links@.remove(
                    pair_key(port_from, port_to),
                ),
                _ => pre.links@,
            },
            self.counters@ == counters_after_remove(pre.counters@, pre.items@[id]),
        ensures
            self.wf(),
            forall|f: u32, t: u32| #![trigger self.spec_get_link_id(f, t)]
                self.spec_get_link_id(f, t) == if link_pair_matches(pre.items@[id], f, t) {
                    None
                } else {
                    pre.spec_get_link_id(f, t)
                },
    {
        let item = pre.items@[id];
        lemma_nodes_with_base_remove(pre.items@, id);
        // Index soundness: surviving index entries still point at tracked links.
        assert forall|k: u64| #[trigger] self.links@.contains_key(k) implies {
            let lid = self.links@[k];
            &&& self.items@.contains_key(lid)
            &&& self.items@[lid] matches Item::Link { port_from, port_to, .. }
                && pair_key(port_from, port_to) == k
        } by {
            assert(pre.links@.contains_key(k));
            let lid = pre.links@[k];
            assert(pre.items@.contains_key(lid));
            if lid == id {
                // The removed item's own index entry went with it.
                match item {
                    Item::Link { port_from, port_to, .. } => {
                        assert(k == pair_key(port_from, port_to));
                        assert(!self.links@.contains_key(k));
                    },
                    _ => {},
                }
            }
        }
        // Index completeness: surviving links keep their entries.
        assert forall|i: u32| #[trigger] self.items@.contains_key(i) implies match self.items@[i] {
            Item::Link { port_from, port_to, .. } => {
                &&& self.links@.contains_key(pair_key(port_from, port_to))
                &&& self.links@[pair_key(port_from, port_to)] == i
            },
            _ => true,
        } by {
            match (pre.items@[i], item) {
                (
                    Item::Link { port_from, port_to, .. },
                    Item::Link { port_from: pf, port_to: pt, .. },
                ) => {
                    if pair_key(port_from, port_to) == pair_key(pf, pt) {
                        lemma_pair_key_injective(port_from, port_to, pf, pt);
                        // Two tracked links cannot share the removed pair.
                        assert(pre.links@[pair_key(pf, pt)] == i);
                        assert(pre.links@[pair_key(pf, pt)] == id);
                    }
                },
                _ => {},
            }
        }
        // The exact pair-index change.
        assert forall|f: u32, t: u32| #![trigger self.spec_get_link_id(f, t)]
            self.spec_get_link_id(f, t) == if link_pair_matches(item, f, t) {
                None
            } else {
                pre.spec_get_link_id(f, t)
            } by {
            match item {
                Item::Link { port_from, port_to, .. } => {
                    if !(f == port_from && t == port_to) && pair_key(f, t) == pair_key(
                        port_from,
                        port_to,
                    ) {
                        lemma_pair_key_injective(f, t, port_from, port_to);
                    }
                },
                _ => {},
            }
        }
        // Counter exactness for every basename.
        assert forall|b: Seq<char>| #[trigger]
            self.counters@.contains_key(b) implies self.counters@[b].live == nodes_with_base(
            self.items@,
            b,
        ).len() by {
            lemma_len_subset(nodes_with_base(pre.items@, b), pre.items@.dom());
            match item {
                Item::Node { ident_base, .. } => {
                    if b == ident_base@ {
                        assert(nodes_with_base(pre.items@, b).contains(id));
                        assert(nodes_with_base(self.items@, b) == nodes_with_base(
                            pre.items@,
                            b,
                        ).remove(id));
                        assert(nodes_with_base(pre.items@, b).len() == nodes_with_base(
                            pre.items@,
                            b,
                        ).remove(id).len() + 1);
                    } else {
                        assert(nodes_with_base(self.items@, b) == nodes_with_base(pre.items@, b));
                    }
                },
                _ => {
                    assert(nodes_with_base(self.items@, b) == nodes_with_base(pre.items@, b));
                },
            }
        }
        assert forall|b: Seq<char>|
            #![trigger nodes_with_base(self.items@, b)]
            nodes_with_base(self.items@, b).len() != 0 implies self.counters@.contains_key(b) by {
            lemma_len_subset(nodes_with_base(pre.items@, b), pre.items@.dom());
            match item {
                Item::Node { ident_base, .. } => {
                    if b == ident_base@ {
                        assert(nodes_with_base(pre.items@, b).contains(id));
                        assert(nodes_with_base(self.items@, b) == nodes_with_base(
                            pre.items@,
                            b,
                        ).remove(id));
                        assert(nodes_with_base(pre.items@, b).len() == nodes_with_base(
                            pre.items@,
                            b,
                        ).remove(id).len() + 1);
                    } else {
                        assert(nodes_with_base(self.items@, b) == nodes_with_base(pre.items@, b));
                    }
                },
                _ => {
                    assert(nodes_with_base(self.items@, b) == nodes_with_base(pre.items@, b));
                },
            }
        }
    }
}

/// How the per-basename node sets change when a fresh `id` is inserted:
/// the set for the new item's own basename (if it is a node) gains `id`,
/// every other basename's set stays as it was.
proof fn lemma_nodes_with_base_insert(items: Map<u32, Item>, id: u32, item: Item)
    requires
        items.dom().finite(),
        !items.contains_key(id),
    ensures
        forall|b: Seq<char>|
            #![trigger nodes_with_base(items.insert(id, item), b)]
            nodes_with_base(items.insert(id, item), b) == if is_node_with_base(item, b) {
                nodes_with_base(items, b).insert(id)
            } else {
                nodes_with_base(items, b)
            },
        forall|b: Seq<char>|
            #![trigger nodes_with_base(items, b)]
            nodes_with_base(items, b).finite() && !nodes_with_base(items, b).contains(id),
{
    assert forall|b: Seq<char>|
        #![trigger nodes_with_base(items.insert(id, item), b)]
        nodes_with_base(items.insert(id, item), b) == if is_node_with_base(item, b) {
            nodes_with_base(items, b).insert(id)
        } else {
            nodes_with_base(items, b)
        } by {
        if is_node_with_base(item, b) {
            assert(nodes_with_base(items.insert(id, item), b) =~= nodes_with_base(
                items,
                b,
            ).insert(id));
        } else {
            assert(nodes_with_base(items.insert(id, item), b) =~= nodes_with_base(items, b));
        }
    }
    assert forall|b: Seq<char>|
        #![trigger nodes_with_base(items, b)]
        nodes_with_base(items, b).finite() && !nodes_with_base(items, b).contains(id) by {
        lemma_len_subset(nodes_with_base(items, b), items.dom());
    }
}

/// How the per-basename node sets change when a tracked `id` is removed:
/// the set for the removed item's own basename (if it is a node) loses
/// `id`, every other basename's set stays as it was.
proof fn lemma_nodes_with_base_remove(items: Map<u32, Item>, id: u32)
    requires
        items.dom().finite(),
        items.contains_key(id),
    ensures
        forall|b: Seq<char>|
            #![trigger nodes_with_base(items.remove(id), b)]
            nodes_with_base(items.remove(id), b) == if is_node_with_base(items[id], b) {
                nodes_with_base(items, b).remove(id)
            } else {
                nodes_with_base(items, b)
            },
        forall|b: Seq<char>|
            #![trigger nodes_with_base(items, b)]
            nodes_with_base(items, b).finite() && (is_node_with_base(items[id], b)
                ==> nodes_with_base(items, b).contains(id)),
{
    assert forall|b: Seq<char>|
        #![trigger nodes_with_base(items.remove(id), b)]
        nodes_with_base(items.remove(id), b) == if is_node_with_base(items[id], b) {
            nodes_with_base(items, b).remove(id)
        } else {
            nodes_with_base(items, b)
        } by {
        if is_node_with_base(items[id], b) {
            assert(nodes_with_base(items.remove(id), b) =~= nodes_with_base(items, b).remove(id));
        } else {
            assert(nodes_with_base(items.remove(id), b) =~= nodes_with_base(items, b));
        }
    }
    assert forall|b: Seq<char>|
        #![trigger nodes_with_base(items, b)]
        nodes_with_base(items, b).finite() && (is_node_with_base(items[id], b)
            ==> nodes_with_base(items, b).contains(id)) by {
        lemma_len_subset(nodes_with_base(items, b), items.dom());
    }
}

/// One registry event at the store level: an object appeared under a fresh
/// id, or the object under an id went away.
pub enum StoreEvent {
    Appeared(u32, Item),
    Removed(u32),
}

/// The item map that results from applying one event.
pub open spec fn apply_store_event(items: Map<u32, Item>, ev: StoreEvent) -> Map<u32, Item> {
    match ev {
        StoreEvent::Appeared(id, item) => items.insert(id, item),
        StoreEvent::Removed(id) => items.remove(id),
    }
}

/// The item map that results from applying a sequence of events in order,
/// starting from `items`.  `State::insert` and `State::remove` change
/// `State::items()` exactly this way, one event per call.
pub open spec fn apply_store_events(items: Map<u32, Item>, evs: Seq<StoreEvent>) -> Map<u32, Item>
    decreases evs.len(),
{
    if evs.len() == 0 {
        items
    } else {
        apply_store_event(apply_store_events(items, evs.drop_last()), evs.last())
    }
}

/// Whether the most recent event for `id` in `evs` is an appearance, with
/// no removal of `id` after it.
pub open spec fn live_after(evs: Seq<StoreEvent>, id: u32) -> bool
    decreases evs.len(),
{
    if evs.len() == 0 {
        false
    } else {
        match evs.last() {
            StoreEvent::Appeared(i, _) => i == id || live_after(evs.drop_last(), id),
            StoreEvent::Removed(i) => i != id && live_after(evs.drop_last(), id),
        }
    }
}

/// After processing any sequence of appeared/removed events starting from an
/// empty store, an id is tracked — `get(id)` answers `Some` — exactly when
/// the most recent event for that id was an appearance without a matching
/// removal after it.
pub proof fn lemma_live_iff_appeared(evs: Seq<StoreEvent>, id: u32)
    ensures
        apply_store_events(Map::empty(), evs).contains_key(id) == live_after(evs, id),
    decreases evs.len(),
{
    if evs.len() > 0 {
        lemma_live_iff_appeared(evs.drop_last(), id);
    }
}

/// The pair index is exact: `get_link_id(output_port, input_port)` answers
/// `Some(id)` precisely when the store tracks a link under `id` whose pair
/// of ports is `(output_port, input_port)` — and so answers `None` as soon
/// as that link is removed.
pub proof fn lemma_link_index_exact(s: &State, output_port: u32, input_port: u32)
    requires
        s.wf(),
    ensures
        forall|id: u32|
            #![trigger s.items().contains_key(id)]
            (s.items().contains_key(id) && link_pair_matches(
                s.items()[id],
                output_port,
                input_port,
            )) <==> s.spec_get_link_id(output_port, input_port) == Some(id),
{
    assert forall|id: u32|
        #![trigger s.items().contains_key(id)]
        (s.items().contains_key(id) && link_pair_matches(s.items()[id], output_port, input_port))
            <==> s.spec_get_link_id(output_port, input_port) == Some(id) by {
        if s.spec_get_link_id(output_port, input_port) == Some(id) {
            let k = pair_key(output_port, input_port);
            assert(s.links@.contains_key(k));
            assert(s.links@[k] == id);
            match s.items@[id] {
                Item::Link { port_from, port_to, .. } => {
                    lemma_pair_key_injective(port_from, port_to, output_port, input_port);
                },
                _ => {},
            }
        }
    }
}

/// Removing an id a second time finds nothing left to remove: the first
/// removal already took the id out, and removing an absent id is a no-op.
pub proof fn lemma_remove_idempotent(items: Map<u32, Item>, id: u32)
    ensures
        !items.remove(id).contains_key(id),
        items.remove(id).remove(id) == items.remove(id),
{
    assert(items.remove(id).remove(id) =~= items.remove(id));
}

/// Pack an output/input port pair into its index key.
fn pair_key_exec(output_port: u32, input_port: u32) -> (k: u64)
    ensures
        k == pair_key(output_port, input_port),
{
    (output_port as u64) * 0x1_0000_0000 + (input_port as u64)
}

} // verus!
