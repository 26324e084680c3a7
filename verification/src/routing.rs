//! Single-hop routing table: a fixed 32-slot arena mapping a destination
//! to a next hop (always the destination itself) and a freshness metric.
//! When the table is full a new destination overwrites slot 0 — a
//! deliberate simplification, not an eviction policy.

use vstd::prelude::*;
use crate::protocol::NodeId;
use crate::slots::{
    count_some, has_free, is_first_free, lemma_count_some_le_len, lemma_count_some_pos,
    lemma_count_some_push_none, lemma_count_some_update, lemma_first_free_unique,
};

verus! {

/// Number of slots in the routing table.
pub const ROUTE_CAPACITY: usize = 32;

/// How much older than `now` a route's timestamp may be before a cleanup
/// sweep removes it (ms).
pub const ROUTE_EXPIRY_MS: u64 = 300000;

/// One routing table entry.
#[derive(Clone, Copy, Debug)]
pub struct RouteEntry {
    /// Destination node.
    pub destination: NodeId,
    /// Next hop toward the destination (always the destination itself:
    /// only direct, single-hop routes are modelled).
    pub next_hop: NodeId,
    /// Route metric (signal strength proxy).
    pub metric: i8,
    /// Time the route was last refreshed.
    pub timestamp: u64,
}

/// Slot `i` of `s` holds a route to `d`.
pub open spec fn route_match(s: Seq<Option<RouteEntry>>, d: NodeId, i: int) -> bool {
    &&& 0 <= i < s.len()
    &&& s[i] matches Some(e) && e.destination == d
}

/// `i` is the first slot of `s` holding a route to `d`.
pub open spec fn is_first_match(s: Seq<Option<RouteEntry>>, d: NodeId, i: int) -> bool {
    &&& route_match(s, d, i)
    &&& forall|j: int| 0 <= j < i ==> !route_match(s, d, j)
}

/// Some slot of `s` holds a route to `d`.
pub open spec fn contains_dest(s: Seq<Option<RouteEntry>>, d: NodeId) -> bool {
    exists|i: int| route_match(s, d, i)
}

/// A just-refreshed single-hop route to `destination`.
pub open spec fn fresh_route(destination: NodeId, metric: i8, timestamp: u64) -> RouteEntry {
    RouteEntry { destination, next_hop: destination, metric, timestamp }
}

/// The slots after an update for `destination`: a no-op for the local
/// node itself, a refresh of the first matching slot, an insertion into
/// the first free slot, or — table full — an unconditional overwrite of
/// slot 0.
pub open spec fn update_route_spec(
    s: Seq<Option<RouteEntry>>,
    node_id: NodeId,
    destination: NodeId,
    metric: i8,
    now: u64,
) -> Seq<Option<RouteEntry>> {
    if destination == node_id {
        s
    } else if contains_dest(s, destination) {
        s.update(
            choose|i: int| is_first_match(s, destination, i),
            Some(fresh_route(destination, metric, now)),
        )
    } else if has_free(s) {
        s.update(
            choose|i: int| is_first_free(s, i),
            Some(fresh_route(destination, metric, now)),
        )
    } else {
        s.update(0, Some(fresh_route(destination, metric, now)))
    }
}

/// A route is expired when its timestamp is more than the expiry window
/// older than `now`.
pub open spec fn route_expired(e: RouteEntry, now: u64) -> bool {
    now > e.timestamp + ROUTE_EXPIRY_MS
}

/// The slots after a cleanup sweep at `now`: expired routes removed,
/// fresher routes untouched.
pub open spec fn cleaned_route_slots(s: Seq<Option<RouteEntry>>, now: u64) -> Seq<
    Option<RouteEntry>,
> {
    Seq::new(
        s.len(),
        |i: int|
            match s[i] {
                Some(e) => if route_expired(e, now) {
                    None
                } else {
                    Some(e)
                },
                None => None,
            },
    )
}

/// The first matching slot is unique.
pub proof fn lemma_first_match_unique(s: Seq<Option<RouteEntry>>, d: NodeId, i: int, j: int)
    requires
        is_first_match(s, d, i),
        is_first_match(s, d, j),
    ensures
        i == j,
{
}

/// Forwarding engine: the per-node dynamic routing table.
pub struct ForwardingEngine {
    /// The local node, which never gets a route of its own.
    node_id: NodeId,
    /// The fixed-capacity slot arena.
    routes: Vec<Option<RouteEntry>>,
    /// Number of occupied slots.
    route_count: usize,
}

impl ForwardingEngine {
    /// The table's slots.
    pub closed spec fn slots(self) -> Seq<Option<RouteEntry>> {
        self.routes@
    }

    /// The identifier of the owning node.
    pub closed spec fn spec_node_id(self) -> NodeId {
        self.node_id
    }

    /// The tracked number of occupied slots.
    pub closed spec fn spec_len(self) -> usize {
        self.route_count
    }

    /// Well-formedness: the arena has its fixed capacity, the count
    /// matches the occupied slots, every route is single-hop, and no
    /// route leads to the local node itself.
    pub closed spec fn wf(self) -> bool {
        &&& self.routes@.len() == ROUTE_CAPACITY
        &&& self.route_count == count_some(self.routes@)
        &&& forall|i: int|
            0 <= i < self.routes@.len() ==> ((#[trigger] self.routes@[i]) matches Some(e)
                ==> e.next_hop == e.destination && e.destination != self.node_id)
    }

    /// Creates an empty routing table owned by `node_id`.
    pub fn new(node_id: NodeId) -> (r: Self)
        ensures
            r.wf(),
            r.spec_node_id() == node_id,
            r.spec_len() == 0,
            r.slots().len() == ROUTE_CAPACITY,
            forall|i: int| 0 <= i < ROUTE_CAPACITY ==> r.slots()[i] is None,
    {
        let mut routes: Vec<Option<RouteEntry>> = Vec::new();
        let mut i: usize = 0;
        while i < ROUTE_CAPACITY
            invariant
                i <= ROUTE_CAPACITY,
                routes@.len() == i,
                count_some(routes@) == 0,
                forall|j: int| 0 <= j < i ==> routes@[j] is None,
            decreases ROUTE_CAPACITY - i,
        {
            proof {
                lemma_count_some_push_none(routes@);
            }
            routes.push(None);
            i = i + 1;
        }
        Self { node_id, routes, route_count: 0 }
    }

    /// First slot holding a route to `destination`, if any.
    fn find_route(&self, destination: NodeId) -> (r: Option<usize>)
        ensures
            r matches Some(i) ==> is_first_match(self.slots(), destination, i as int),
            r is None ==> !contains_dest(self.slots(), destination),
    {
        let n = self.routes.len();
        let mut i: usize = 0;
        while i < n
            invariant
                n == self.routes@.len(),
                i <= n,
                forall|j: int| 0 <= j < i ==> !route_match(self.slots(), destination, j),
            decreases n - i,
        {
            match self.routes[i] {
                Some(route) => {
                    if route.destination == destination {
                        return Some(i);
                    }
                },
                None => {},
            }
            i = i + 1;
        }
        None
    }

    /// First free slot, if any.
    fn find_free_slot(&self) -> (r: Option<usize>)
        ensures
            r matches Some(i) ==> is_first_free(self.slots(), i as int),
            r is None ==> !has_free(self.slots()),
    {
        let n = self.routes.len();
        let mut i: usize = 0;
        while i < n
            invariant
                n == self.routes@.len(),
                i <= n,
                forall|j: int| 0 <= j < i ==> self.slots()[j] is Some,
            decreases n - i,
        {
            match self.routes[i] {
                Some(_) => {},
                None => {
                    return Some(i);
                },
            }
            i = i + 1;
        }
        None
    }

    /// Refreshes or inserts the single-hop route to `destination`. A
    /// route to the local node itself is never added.
    pub fn update_route(&mut self, destination: NodeId, metric: i8, now: u64)
        requires
            old(self).wf(),
        ensures
            final(self).wf(),
            final(self).spec_node_id() == old(self).spec_node_id(),
            final(self).slots() == update_route_spec(
                old(self).slots(),
                old(self).spec_node_id(),
                destination,
                metric,
                now,
            ),
            destination == old(self).spec_node_id() ==> *final(self) == *old(self),
            contains_dest(old(self).slots(), destination) || destination == old(
                self,
            ).spec_node_id() ==> final(self).spec_len() == old(self).spec_len(),
            destination != old(self).spec_node_id() && !contains_dest(
                old(self).slots(),
                destination,
            ) && has_free(old(self).slots()) ==> final(self).spec_len() == old(self).spec_len()
                + 1,
            destination != old(self).spec_node_id() && !contains_dest(
                old(self).slots(),
                destination,
            ) && !has_free(old(self).slots()) ==> final(self).spec_len() == old(self).spec_len(),
    {
        if destination == self.node_id {
            return;
        }
        let entry = RouteEntry { destination, next_hop: destination, metric, timestamp: now };
        proof {
            assert(entry == fresh_route(destination, metric, now));
        }
        match self.find_route(destination) {
            Some(index) => {
                proof {
                    lemma_count_some_update(self.routes@, index as int, Some(entry));
                    lemma_first_match_unique(
                        self.routes@,
                        destination,
                        index as int,
                        choose|i: int| is_first_match(self.routes@, destination, i),
                    );
                }
                self.routes.set(index, Some(entry));
            },
            None => {
                match self.find_free_slot() {
                    Some(index) => {
                        proof {
                            lemma_count_some_update(self.routes@, index as int, Some(entry));
                            lemma_count_some_le_len(self.routes@);
                            lemma_first_free_unique(
                                self.routes@,
                                index as int,
                                choose|i: int| is_first_free(self.routes@, i),
                            );
                        }
                        self.routes.set(index, Some(entry));
                        self.route_count = self.route_count + 1;
                    },
                    None => {
                        // Table full and no match: overwrite slot 0.
                        proof {
                            lemma_count_some_update(self.routes@, 0, Some(entry));
                        }
                        self.routes.set(0, Some(entry));
                    },
                }
            },
        }
    }

    /// Next hop toward `destination`: the destination itself when a route
    /// exists, nothing otherwise.
    pub fn get_next_hop(&self, destination: NodeId) -> (r: Option<NodeId>)
        requires
            self.wf(),
        ensures
            r == if contains_dest(self.slots(), destination) {
                Some(destination)
            } else {
                None::<NodeId>
            },
    {
        match self.find_route(destination) {
            Some(index) => {
                match self.routes[index] {
                    Some(route) => Some(route.next_hop),
                    None => None,
                }
            },
            None => None,
        }
    }

    /// Drops the route to `destination`, if one exists.
    pub fn remove_route(&mut self, destination: NodeId)
        requires
            old(self).wf(),
        ensures
            final(self).wf(),
            final(self).spec_node_id() == old(self).spec_node_id(),
            contains_dest(old(self).slots(), destination) ==> final(self).slots() == old(
                self,
            ).slots().update(
                choose|i: int| is_first_match(old(self).slots(), destination, i),
                None::<RouteEntry>,
            ) && final(self).spec_len() == old(self).spec_len() - 1,
            !contains_dest(old(self).slots(), destination) ==> *final(self) == *old(self),
    {
        match self.find_route(destination) {
            Some(index) => {
                proof {
                    lemma_count_some_update(self.routes@, index as int, None::<RouteEntry>);
                    lemma_count_some_pos(self.routes@, index as int);
                    lemma_first_match_unique(
                        self.routes@,
                        destination,
                        index as int,
                        choose|i: int| is_first_match(self.routes@, destination, i),
                    );
                }
                self.routes.set(index, None);
                self.route_count = self.route_count - 1;
            },
            None => {},
        }
    }

    /// Empties the table.
    pub fn clear(&mut self)
        requires
            old(self).wf(),
        ensures
            final(self).wf(),
            final(self).spec_node_id() == old(self).spec_node_id(),
            final(self).spec_len() == 0,
            final(self).slots().len() == ROUTE_CAPACITY,
            forall|i: int| 0 <= i < ROUTE_CAPACITY ==> final(self).slots()[i] is None,
    {
        let n = self.routes.len();
        let mut i: usize = 0;
        while i < n
            invariant
                n == self.routes@.len(),
                self.routes@.len() == ROUTE_CAPACITY,
                i <= n,
                forall|j: int| 0 <= j < i ==> self.routes@[j] is None,
                forall|j: int|
                    i <= j < n ==> self.routes@[j] == old(self).routes@[j],
                self.node_id == old(self).node_id,
                self.route_count == old(self).route_count,
            decreases n - i,
        {
            self.routes.set(i, None);
            i = i + 1;
        }
        self.route_count = 0;
        proof {
            lemma_all_none_count_zero(self.routes@);
        }
    }

    /// Number of routes in the table.
    pub fn len(&self) -> (r: usize)
        ensures
            r == self.spec_len(),
    {
        self.route_count
    }

    /// Whether the table holds no routes.
    pub fn is_empty(&self) -> (r: bool)
        ensures
            r == (self.spec_len() == 0),
    {
        self.route_count == 0
    }

    /// Removes every route whose timestamp is more than the expiry window
    /// older than `current_time`; fresher routes are untouched.
    pub fn cleanup(&mut self, current_time: u64)
        requires
            old(self).wf(),
        ensures
            final(self).wf(),
            final(self).spec_node_id() == old(self).spec_node_id(),
            final(self).slots() == cleaned_route_slots(old(self).slots(), current_time),
    {
        let n = self.routes.len();
        let ghost cleaned = cleaned_route_slots(old(self).routes@, current_time);
        let mut i: usize = 0;
        while i < n
            invariant
                n == ROUTE_CAPACITY,
                self.routes@.len() == ROUTE_CAPACITY,
                cleaned == cleaned_route_slots(old(self).routes@, current_time),
                old(self).routes@.len() == ROUTE_CAPACITY,
                i <= n,
                forall|j: int| 0 <= j < i ==> self.routes@[j] == cleaned[j],
                forall|j: int| i <= j < n ==> self.routes@[j] == old(self).routes@[j],
                self.node_id == old(self).node_id,
                self.route_count == count_some(self.routes@),
                forall|j: int|
                    0 <= j < self.routes@.len() ==> ((#[trigger] self.routes@[j]) matches Some(e)
                        ==> e.next_hop == e.destination && e.destination != self.node_id),
            decreases n - i,
        {
            match self.routes[i] {
                Some(route) => {
                    if current_time >= route.timestamp && current_time - route.timestamp
                        > ROUTE_EXPIRY_MS {
                        proof {
                            lemma_count_some_update(self.routes@, i as int, None::<RouteEntry>);
                            lemma_count_some_pos(self.routes@, i as int);
                        }
                        self.routes.set(i, None);
                        self.route_count = self.route_count - 1;
                    }
                },
                None => {},
            }
            i = i + 1;
        }
        proof {
            assert(self.routes@ =~= cleaned);
        }
    }
}

/// A routing table never holds a route to its own node: updates for the
/// local id are dropped, so no slot ever names it as destination.
pub proof fn lemma_no_self_route(engine: ForwardingEngine)
    requires
        engine.wf(),
    ensures
        !contains_dest(engine.slots(), engine.spec_node_id()),
{
}

/// A table of only free slots holds no routes.
proof fn lemma_all_none_count_zero(s: Seq<Option<RouteEntry>>)
    requires
        forall|i: int| 0 <= i < s.len() ==> s[i] is None,
    ensures
        count_some(s) == 0,
    decreases s.len(),
{
    if s.len() > 0 {
        lemma_all_none_count_zero(s.drop_last());
    }
}

} // verus!
