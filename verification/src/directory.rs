//! Service directory: a fixed 32-slot registry of service providers,
//! keyed by (node, service type) and scored against a client's QoS
//! requirements. Providers failing a hard QoS bound score 0; among the
//! rest the strictly highest positive score wins, ties keeping the first
//! in scan order.

use vstd::prelude::*;
use crate::protocol::{NodeId, QosRequirements, ServiceType};
use crate::slots::{
    count_some, has_free, is_first_free, lemma_count_some_le_len, lemma_count_some_pos,
    lemma_count_some_push_none, lemma_count_some_update, lemma_first_free_unique,
};

verus! {

/// Number of slots in the service directory.
pub const SERVICE_CAPACITY: usize = 32;

/// How much older than `now` an entry's last update may be before a
/// cleanup sweep purges it (ms).
pub const SERVICE_EXPIRY_MS: u64 = 300000;

/// Minimum interval between two effective cleanup sweeps (ms).
pub const CLEANUP_INTERVAL_MS: u64 = 30000;

/// What a service provider offers.
#[derive(Clone, Copy, Debug, PartialEq, Eq, Structural)]
pub struct Capabilities {
    /// Maximum bandwidth (kbps).
    pub max_bandwidth: u16,
    /// Minimum latency (ms).
    pub min_latency: u16,
    /// Reliability (percent).
    pub reliability: u8,
    /// Battery level (percent).
    pub battery_level: u8,
}

/// Observed performance of a service provider.
#[derive(Clone, Copy, Debug, PartialEq, Eq, Structural)]
pub struct ServiceMetrics {
    /// Success rate (percent).
    pub success_rate: u8,
    /// Average response time (ms).
    pub avg_response_time: u16,
    /// Signal strength (dBm).
    pub signal_strength: i8,
}

/// One registered service provider.
#[derive(Clone, Copy, Debug)]
pub struct ServiceEntry {
    pub node_id: NodeId,
    pub service_type: ServiceType,
    /// Server load (percent, 0–100).
    pub load: u8,
    pub capabilities: Capabilities,
    /// Time the entry was last refreshed.
    pub last_update_time: u64,
    pub metrics: ServiceMetrics,
}

/// Score contribution of the provider's signal strength.
pub open spec fn signal_bucket(signal_strength: i8) -> int {
    if signal_strength > -60 {
        5
    } else if signal_strength > -75 {
        3
    } else if signal_strength > -90 {
        1
    } else {
        0
    }
}

/// The smaller of two mathematical integers.
pub open spec fn min_int(a: int, b: int) -> int {
    if a < b {
        a
    } else {
        b
    }
}

/// How well `e` matches `qos`: 0 when any hard bound (bandwidth, latency,
/// reliability) fails, otherwise a weighted sum of capped surpluses, load,
/// battery and signal strength.
pub open spec fn score_spec(e: ServiceEntry, qos: QosRequirements) -> int {
    if e.capabilities.max_bandwidth < qos.min_bandwidth {
        0
    } else if e.capabilities.min_latency > qos.max_latency {
        0
    } else if e.capabilities.reliability < qos.reliability {
        0
    } else {
        40 * (1 + min_int(e.capabilities.max_bandwidth - qos.min_bandwidth, 1000) / 100) + 30 * (1
            + min_int(qos.max_latency - e.capabilities.min_latency, 500) / 50) + 20 * (1 + min_int(
            e.capabilities.reliability - qos.reliability,
            50,
        ) / 10) + 10 * (100 - e.load) / 10 + 5 * e.capabilities.battery_level / 10 + signal_bucket(
            e.metrics.signal_strength,
        )
    }
}

/// Whether `e` satisfies every hard QoS bound of `qos`.
pub open spec fn meets_qos(e: ServiceEntry, qos: QosRequirements) -> bool {
    &&& e.capabilities.max_bandwidth >= qos.min_bandwidth
    &&& e.capabilities.min_latency <= qos.max_latency
    &&& e.capabilities.reliability >= qos.reliability
}

impl ServiceEntry {
    /// Scores this entry against `qos`; 0 disqualifies.
    pub fn score(&self, qos: &QosRequirements) -> (r: u16)
        requires
            self.load <= 100,
        ensures
            r == score_spec(*self, *qos),
    {
        let mut score: u16 = 0;

        if self.capabilities.max_bandwidth >= qos.min_bandwidth {
            let surplus = self.capabilities.max_bandwidth - qos.min_bandwidth;
            let capped = if surplus > 1000 {
                1000
            } else {
                surplus
            };
            score += 40 * (1 + capped / 100);
        } else {
            return 0;
        }

        if self.capabilities.min_latency <= qos.max_latency {
            let slack = qos.max_latency - self.capabilities.min_latency;
            let capped = if slack > 500 {
                500
            } else {
                slack
            };
            score += 30 * (1 + capped / 50);
        } else {
            return 0;
        }

        if self.capabilities.reliability >= qos.reliability {
            let surplus = self.capabilities.reliability - qos.reliability;
            let capped = if surplus > 50 {
                50
            } else {
                surplus
            };
            score += 20 * (1 + capped as u16 / 10);
        } else {
            return 0;
        }

        score += 10 * (100 - self.load as u16) / 10;

        score += 5 * self.capabilities.battery_level as u16 / 10;

        let signal_factor: u16 = if self.metrics.signal_strength > -60 {
            5
        } else if self.metrics.signal_strength > -75 {
            3
        } else if self.metrics.signal_strength > -90 {
            1
        } else {
            0
        };
        score += signal_factor;

        score
    }
}

/// A qualified provider always scores positive, and a disqualified one
/// always scores 0: a positive score certifies every hard QoS bound.
pub proof fn lemma_score_positive_iff_qualified(e: ServiceEntry, qos: QosRequirements)
    requires
        e.load <= 100,
    ensures
        score_spec(e, qos) > 0 <==> meets_qos(e, qos),
{
}

/// All else equal, a provider with at least as much bandwidth surplus
/// scores at least as high.
pub proof fn lemma_score_bandwidth_monotone(
    a: ServiceEntry,
    b: ServiceEntry,
    qos: QosRequirements,
)
    requires
        meets_qos(a, qos),
        meets_qos(b, qos),
        a.capabilities.max_bandwidth >= b.capabilities.max_bandwidth,
        a.capabilities.min_latency == b.capabilities.min_latency,
        a.capabilities.reliability == b.capabilities.reliability,
        a.capabilities.battery_level == b.capabilities.battery_level,
        a.load == b.load,
        a.metrics.signal_strength == b.metrics.signal_strength,
    ensures
        score_spec(a, qos) >= score_spec(b, qos),
{
    let sa = min_int(a.capabilities.max_bandwidth - qos.min_bandwidth, 1000);
    let sb = min_int(b.capabilities.max_bandwidth - qos.min_bandwidth, 1000);
    assert(sb <= sa);
    vstd::arithmetic::div_mod::lemma_div_is_ordered(sb, sa, 100);
}

/// Slot `i` of `s` holds the (node, type) key.
pub open spec fn key_match(
    s: Seq<Option<ServiceEntry>>,
    node_id: NodeId,
    service_type: ServiceType,
    i: int,
) -> bool {
    &&& 0 <= i < s.len()
    &&& s[i] matches Some(e) && e.node_id == node_id && e.service_type == service_type
}

/// `i` is the first slot of `s` holding the (node, type) key.
pub open spec fn is_first_key_match(
    s: Seq<Option<ServiceEntry>>,
    node_id: NodeId,
    service_type: ServiceType,
    i: int,
) -> bool {
    &&& key_match(s, node_id, service_type, i)
    &&& forall|j: int| 0 <= j < i ==> !key_match(s, node_id, service_type, j)
}

/// Some slot of `s` holds the (node, type) key.
pub open spec fn contains_key(
    s: Seq<Option<ServiceEntry>>,
    node_id: NodeId,
    service_type: ServiceType,
) -> bool {
    exists|i: int| key_match(s, node_id, service_type, i)
}

/// Slot `i` of `s` offers `service_type`.
pub open spec fn type_match(s: Seq<Option<ServiceEntry>>, service_type: ServiceType, i: int) -> bool {
    &&& 0 <= i < s.len()
    &&& s[i] matches Some(e) && e.service_type == service_type
}

/// The entry in slot `i` of `s` (meaningful only for occupied slots).
pub open spec fn entry_at(s: Seq<Option<ServiceEntry>>, i: int) -> ServiceEntry {
    s[i]->Some_0
}

/// `i` holds the winning provider for (`service_type`, `qos`): it scores
/// positive, no slot scores higher, and every earlier slot of the type
/// scores strictly lower (ties keep the first in scan order).
pub open spec fn is_best_match(
    s: Seq<Option<ServiceEntry>>,
    service_type: ServiceType,
    qos: QosRequirements,
    i: int,
) -> bool {
    &&& type_match(s, service_type, i)
    &&& score_spec(entry_at(s, i), qos) > 0
    &&& forall|j: int|
        type_match(s, service_type, j) ==> score_spec(entry_at(s, j), qos) <= score_spec(
            entry_at(s, i),
            qos,
        )
    &&& forall|j: int|
        0 <= j < i && type_match(s, service_type, j) ==> score_spec(entry_at(s, j), qos)
            < score_spec(entry_at(s, i), qos)
}

/// The winning provider for (`service_type`, `qos`), if any provider of
/// the type scores positive.
pub open spec fn best_service(
    s: Seq<Option<ServiceEntry>>,
    service_type: ServiceType,
    qos: QosRequirements,
) -> Option<ServiceEntry> {
    if exists|i: int| is_best_match(s, service_type, qos, i) {
        Some(entry_at(s, choose|i: int| is_best_match(s, service_type, qos, i)))
    } else {
        None
    }
}

/// The winning slot is unique.
pub proof fn lemma_best_match_unique(
    s: Seq<Option<ServiceEntry>>,
    service_type: ServiceType,
    qos: QosRequirements,
    i: int,
    j: int,
)
    requires
        is_best_match(s, service_type, qos, i),
        is_best_match(s, service_type, qos, j),
    ensures
        i == j,
{
}

/// The first key-matching slot is unique.
pub proof fn lemma_first_key_match_unique(
    s: Seq<Option<ServiceEntry>>,
    node_id: NodeId,
    service_type: ServiceType,
    i: int,
    j: int,
)
    requires
        is_first_key_match(s, node_id, service_type, i),
        is_first_key_match(s, node_id, service_type, j),
    ensures
        i == j,
{
}

/// A freshly built directory entry.
pub open spec fn service_entry(
    node_id: NodeId,
    service_type: ServiceType,
    load: u8,
    capabilities: Capabilities,
    metrics: ServiceMetrics,
    last_update_time: u64,
) -> ServiceEntry {
    ServiceEntry { node_id, service_type, load, capabilities, last_update_time, metrics }
}

/// The slots after upserting `e`: the first slot holding its key is
/// replaced, else `e` goes into the first free slot, else — directory
/// full — nothing changes.
pub open spec fn upserted_slots(s: Seq<Option<ServiceEntry>>, e: ServiceEntry) -> Seq<
    Option<ServiceEntry>,
> {
    if contains_key(s, e.node_id, e.service_type) {
        s.update(choose|i: int| is_first_key_match(s, e.node_id, e.service_type, i), Some(e))
    } else if has_free(s) {
        s.update(choose|i: int| is_first_free(s, i), Some(e))
    } else {
        s
    }
}

/// An entry is expired when its last update is more than the expiry
/// window older than `now`.
pub open spec fn service_expired(e: ServiceEntry, now: u64) -> bool {
    now > e.last_update_time + SERVICE_EXPIRY_MS
}

/// The slots after a cleanup sweep at `now`: expired entries purged,
/// fresher entries untouched.
pub open spec fn cleaned_service_slots(s: Seq<Option<ServiceEntry>>, now: u64) -> Seq<
    Option<ServiceEntry>,
> {
    Seq::new(
        s.len(),
        |i: int|
            match s[i] {
                Some(e) => if service_expired(e, now) {
                    None
                } else {
                    Some(e)
                },
                None => None,
            },
    )
}

/// The entries of `s` offering `service_type`, in scan order.
pub open spec fn entries_of_type(s: Seq<Option<ServiceEntry>>, service_type: ServiceType) -> Seq<
    ServiceEntry,
>
    decreases s.len(),
{
    if s.len() == 0 {
        Seq::empty()
    } else {
        entries_of_type(s.drop_last(), service_type) + (match s.last() {
            Some(e) => if e.service_type == service_type {
                seq![e]
            } else {
                Seq::empty()
            },
            None => Seq::empty(),
        })
    }
}

/// Directory of service providers known to a forward node.
pub struct NetworkServiceDirectory {
    /// The fixed-capacity slot arena.
    services: Vec<Option<ServiceEntry>>,
    /// Number of occupied slots.
    service_count: usize,
    /// Time of the last effective cleanup sweep.
    last_cleanup_time: u64,
}

impl NetworkServiceDirectory {
    /// The directory's slots.
    pub closed spec fn slots(self) -> Seq<Option<ServiceEntry>> {
        self.services@
    }

    /// The tracked number of occupied slots.
    pub closed spec fn spec_count(self) -> usize {
        self.service_count
    }

    /// Time of the last effective cleanup sweep.
    pub closed spec fn spec_last_cleanup(self) -> u64 {
        self.last_cleanup_time
    }

    /// Well-formedness: fixed capacity, an accurate count, loads within
    /// 0–100, and at most one entry per (node, type) key.
    pub closed spec fn wf(self) -> bool {
        &&& self.services@.len() == SERVICE_CAPACITY
        &&& self.service_count == count_some(self.services@)
        &&& forall|i: int|
            0 <= i < self.services@.len() ==> ((#[trigger] self.services@[i]) matches Some(e)
                ==> e.load <= 100)
        &&& forall|i: int, j: int|
            0 <= i < j < self.services@.len() ==> !((#[trigger] self.services@[i]) matches Some(a)
                && (#[trigger] self.services@[j]) matches Some(b) && a.node_id == b.node_id
                && a.service_type == b.service_type)
    }

    /// Creates an empty directory.
    pub fn new() -> (r: Self)
        ensures
            r.wf(),
            r.spec_count() == 0,
            r.spec_last_cleanup() == 0,
            r.slots().len() == SERVICE_CAPACITY,
            forall|i: int| 0 <= i < SERVICE_CAPACITY ==> r.slots()[i] is None,
    {
        let mut services: Vec<Option<ServiceEntry>> = Vec::new();
        let mut i: usize = 0;
        while i < SERVICE_CAPACITY
            invariant
                i <= SERVICE_CAPACITY,
                services@.len() == i,
                count_some(services@) == 0,
                forall|j: int| 0 <= j < i ==> services@[j] is None,
            decreases SERVICE_CAPACITY - i,
        {
            proof {
                lemma_count_some_push_none(services@);
            }
            services.push(None);
            i = i + 1;
        }
        Self { services, service_count: 0, last_cleanup_time: 0 }
    }

    /// First slot holding the (node, type) key, if any.
    fn find_service_index(&self, node_id: NodeId, service_type: ServiceType) -> (r: Option<usize>)
        ensures
            r matches Some(i) ==> is_first_key_match(self.slots(), node_id, service_type, i as int),
            r is None ==> !contains_key(self.slots(), node_id, service_type),
    {
        let n = self.services.len();
        let mut i: usize = 0;
        while i < n
            invariant
                n == self.services@.len(),
                i <= n,
                forall|j: int| 0 <= j < i ==> !key_match(self.slots(), node_id, service_type, j),
            decreases n - i,
        {
            match self.services[i] {
                Some(service) => {
                    if service.node_id == node_id && service.service_type == service_type {
                        return Some(i);
                    }
                },
                None => {},
            }
            i = i + 1;
        }
        None
    }

    /// First free slot, if any.
    fn find_free_slot(&self) -> (r: Option<usize>)
        ensures
            r matches Some(i) ==> is_first_free(self.slots(), i as int),
            r is None ==> !has_free(self.slots()),
    {
        let n = self.services.len();
        let mut i: usize = 0;
        while i < n
            invariant
                n == self.services@.len(),
                i <= n,
                forall|j: int| 0 <= j < i ==> self.slots()[j] is Some,
            decreases n - i,
        {
            match self.services[i] {
                Some(_) => {},
                None => {
                    return Some(i);
                },
            }
            i = i + 1;
        }
        None
    }

    /// Upserts the provider keyed (node, type): refreshed in place when
    /// present, inserted into a free slot otherwise. Fails only when the
    /// directory is full and the key is new.
    pub fn update_service(
        &mut self,
        node_id: NodeId,
        service_type: ServiceType,
        load: u8,
        capabilities: Capabilities,
        metrics: ServiceMetrics,
        current_time: u64,
    ) -> (r: bool)
        requires
            old(self).wf(),
            load <= 100,
        ensures
            final(self).wf(),
            final(self).spec_last_cleanup() == old(self).spec_last_cleanup(),
            r == (contains_key(old(self).slots(), node_id, service_type) || has_free(
                old(self).slots(),
            )),
            final(self).slots() == upserted_slots(
                old(self).slots(),
                service_entry(node_id, service_type, load, capabilities, metrics, current_time),
            ),
            contains_key(old(self).slots(), node_id, service_type) ==> final(self).spec_count()
                == old(self).spec_count(),
            !contains_key(old(self).slots(), node_id, service_type) && has_free(
                old(self).slots(),
            ) ==> final(self).spec_count() == old(self).spec_count() + 1,
            !contains_key(old(self).slots(), node_id, service_type) && !has_free(
                old(self).slots(),
            ) ==> *final(self) == *old(self),
    {
        let entry = ServiceEntry {
            node_id,
            service_type,
            load,
            capabilities,
            last_update_time: current_time,
            metrics,
        };
        match self.find_service_index(node_id, service_type) {
            Some(index) => {
                proof {
                    lemma_count_some_update(self.services@, index as int, Some(entry));
                    lemma_first_key_match_unique(
                        self.services@,
                        node_id,
                        service_type,
                        index as int,
                        choose|i: int|
                            is_first_key_match(self.services@, node_id, service_type, i),
                    );
                }
                self.services.set(index, Some(entry));
                return true;
            },
            None => {},
        }
        match self.find_free_slot() {
            Some(index) => {
                proof {
                    lemma_count_some_update(self.services@, index as int, Some(entry));
                    lemma_count_some_le_len(self.services@);
                    lemma_first_free_unique(
                        self.services@,
                        index as int,
                        choose|i: int| is_first_free(self.services@, i),
                    );
                }
                self.services.set(index, Some(entry));
                self.service_count = self.service_count + 1;
                proof {
                    assert forall|j: int|
                        0 <= j < self.services@.len() && j != index as int implies !((
                        #[trigger] self.services@[j]) matches Some(b) && b.node_id == node_id
                        && b.service_type == service_type) by {
                        assert(!key_match(old(self).services@, node_id, service_type, j));
                        assert(self.services@[j] == old(self).services@[j]);
                    }
                }
                true
            },
            None => false,
        }
    }

    /// The provider of `service_type` best matching `qos`: the strictly
    /// highest positive score wins, ties keep the first in scan order,
    /// and no provider failing a hard QoS bound is ever returned.
    pub fn find_best_service(&self, service_type: ServiceType, qos: &QosRequirements) -> (r: Option<
        ServiceEntry,
    >)
        requires
            self.wf(),
        ensures
            r == best_service(self.slots(), service_type, *qos),
            r matches Some(e) ==> meets_qos(e, *qos),
    {
        let mut best_index: Option<usize> = None;
        let mut best_score: u16 = 0;
        let mut best_entry: Option<ServiceEntry> = None;

        let n = self.services.len();
        let mut i: usize = 0;
        while i < n
            invariant
                self.wf(),
                n == self.services@.len(),
                i <= n,
                best_index is None ==> best_score == 0 && best_entry is None,
                best_index is None ==> forall|j: int|
                    0 <= j < i && type_match(self.slots(), service_type, j) ==> score_spec(
                        entry_at(self.slots(), j),
                        *qos,
                    ) == 0,
                best_index matches Some(b) ==> {
                    &&& 0 <= b < i
                    &&& type_match(self.slots(), service_type, b as int)
                    &&& best_entry == Some(entry_at(self.slots(), b as int))
                    &&& score_spec(entry_at(self.slots(), b as int), *qos) == best_score as int
                    &&& best_score > 0
                    &&& forall|j: int|
                        0 <= j < b && type_match(self.slots(), service_type, j) ==> score_spec(
                            entry_at(self.slots(), j),
                            *qos,
                        ) < best_score as int
                    &&& forall|j: int|
                        0 <= j < i && type_match(self.slots(), service_type, j) ==> score_spec(
                            entry_at(self.slots(), j),
                            *qos,
                        ) <= best_score as int
                },
            decreases n - i,
        {
            match self.services[i] {
                Some(service) => {
                    if service.service_type == service_type {
                        let score = service.score(qos);
                        if score > best_score {
                            best_score = score;
                            best_index = Some(i);
                            best_entry = Some(service);
                        }
                    }
                },
                None => {},
            }
            i = i + 1;
        }
        proof {
            match best_index {
                Some(b) => {
                    assert(is_best_match(self.slots(), service_type, *qos, b as int));
                    lemma_best_match_unique(
                        self.slots(),
                        service_type,
                        *qos,
                        b as int,
                        choose|k: int| is_best_match(self.slots(), service_type, *qos, k),
                    );
                    assert(meets_qos(entry_at(self.slots(), b as int), *qos)) by {
                        lemma_score_positive_iff_qualified(
                            entry_at(self.slots(), b as int),
                            *qos,
                        );
                    }
                },
                None => {
                    assert forall|k: int| !is_best_match(self.slots(), service_type, *qos, k) by {
                        if type_match(self.slots(), service_type, k) {
                            assert(score_spec(entry_at(self.slots(), k), *qos) == 0);
                        }
                    }
                },
            }
        }
        best_entry
    }

    /// Purges entries idle for more than the expiry window — but only
    /// when at least the throttle interval has passed since the previous
    /// effective sweep.
    pub fn cleanup(&mut self, current_time: u64)
        requires
            old(self).wf(),
        ensures
            final(self).wf(),
            current_time < old(self).spec_last_cleanup() + CLEANUP_INTERVAL_MS ==> *final(self)
                == *old(self),
            current_time >= old(self).spec_last_cleanup() + CLEANUP_INTERVAL_MS ==> {
                &&& final(self).slots() == cleaned_service_slots(old(self).slots(), current_time)
                &&& final(self).spec_last_cleanup() == current_time
            },
    {
        if current_time < self.last_cleanup_time || current_time - self.last_cleanup_time
            < CLEANUP_INTERVAL_MS {
            return;
        }
        let n = self.services.len();
        let ghost cleaned = cleaned_service_slots(old(self).services@, current_time);
        let mut i: usize = 0;
        while i < n
            invariant
                n == SERVICE_CAPACITY,
                self.services@.len() == SERVICE_CAPACITY,
                old(self).services@.len() == SERVICE_CAPACITY,
                cleaned == cleaned_service_slots(old(self).services@, current_time),
                i <= n,
                forall|j: int| 0 <= j < i ==> self.services@[j] == cleaned[j],
                forall|j: int| i <= j < n ==> self.services@[j] == old(self).services@[j],
                self.last_cleanup_time == old(self).last_cleanup_time,
                self.service_count == count_some(self.services@),
                forall|j: int|
                    0 <= j < self.services@.len() ==> ((#[trigger] self.services@[j]) matches Some(
                        e,
                    ) ==> e.load <= 100),
                forall|j: int, k: int|
                    0 <= j < k < self.services@.len() ==> !((#[trigger] self.services@[j]) matches
                        Some(a) && (#[trigger] self.services@[k]) matches Some(b) && a.node_id
                        == b.node_id && a.service_type == b.service_type),
            decreases n - i,
        {
            match self.services[i] {
                Some(service) => {
                    if current_time >= service.last_update_time && current_time
                        - service.last_update_time > SERVICE_EXPIRY_MS {
                        proof {
                            lemma_count_some_update(self.services@, i as int, None::<ServiceEntry>);
                            lemma_count_some_pos(self.services@, i as int);
                        }
                        self.services.set(i, None);
                        self.service_count = self.service_count - 1;
                    }
                },
                None => {},
            }
            i = i + 1;
        }
        self.last_cleanup_time = current_time;
        proof {
            assert(self.services@ =~= cleaned);
        }
    }

    /// All providers of `service_type`, in scan order.
    pub fn get_services_by_type(&self, service_type: ServiceType) -> (r: Vec<ServiceEntry>)
        requires
            self.wf(),
        ensures
            r@ == entries_of_type(self.slots(), service_type),
    {
        let mut result: Vec<ServiceEntry> = Vec::new();
        let n = self.services.len();
        let mut i: usize = 0;
        while i < n
            invariant
                n == self.services@.len(),
                i <= n,
                result@ == entries_of_type(self.slots().take(i as int), service_type),
            decreases n - i,
        {
            proof {
                assert(self.slots().take(i as int + 1).drop_last() =~= self.slots().take(i as int));
                assert(self.slots().take(i as int + 1).last() == self.slots()[i as int]);
            }
            match self.services[i] {
                Some(service) => {
                    if service.service_type == service_type {
                        result.push(service);
                    }
                },
                None => {},
            }
            i = i + 1;
        }
        proof {
            assert(self.slots().take(n as int) =~= self.slots());
        }
        result
    }

    /// Registers a provider of `service_type` with default capabilities
    /// and metrics, for callers that do not need QoS scoring.
    pub fn register_service(&mut self, node_id: NodeId, service_type: ServiceType)
        requires
            old(self).wf(),
        ensures
            final(self).wf(),
            final(self).slots() == upserted_slots(
                old(self).slots(),
                default_service_entry(node_id, service_type),
            ),
    {
        let capabilities = Capabilities {
            max_bandwidth: 1000,
            min_latency: 100,
            reliability: 90,
            battery_level: 100,
        };
        let metrics = ServiceMetrics {
            success_rate: 100,
            avg_response_time: 50,
            signal_strength: -70,
        };
        self.update_service(node_id, service_type, 0, capabilities, metrics, 0);
    }

    /// The node of the first provider of `service_type` in scan order,
    /// ignoring QoS.
    pub fn find_service(&self, service_type: ServiceType) -> (r: Option<NodeId>)
        ensures
            r matches Some(id) ==> exists|i: int|
                type_match(self.slots(), service_type, i) && entry_at(self.slots(), i).node_id
                    == id,
            r is None ==> forall|i: int| !type_match(self.slots(), service_type, i),
    {
        let n = self.services.len();
        let mut i: usize = 0;
        while i < n
            invariant
                n == self.services@.len(),
                i <= n,
                forall|j: int| 0 <= j < i ==> !type_match(self.slots(), service_type, j),
            decreases n - i,
        {
            match self.services[i] {
                Some(service) => {
                    if service.service_type == service_type {
                        proof {
                            assert(type_match(self.slots(), service_type, i as int));
                            assert(entry_at(self.slots(), i as int).node_id == service.node_id);
                        }
                        return Some(service.node_id);
                    }
                },
                None => {},
            }
            i = i + 1;
        }
        None
    }

    /// Drops the provider keyed (node, type), if registered.
    pub fn remove_service(&mut self, node_id: NodeId, service_type: ServiceType)
        requires
            old(self).wf(),
        ensures
            final(self).wf(),
            final(self).spec_last_cleanup() == old(self).spec_last_cleanup(),
            contains_key(old(self).slots(), node_id, service_type) ==> final(self).slots() == old(
                self,
            ).slots().update(
                choose|i: int| is_first_key_match(old(self).slots(), node_id, service_type, i),
                None::<ServiceEntry>,
            ) && final(self).spec_count() == old(self).spec_count() - 1,
            !contains_key(old(self).slots(), node_id, service_type) ==> *final(self) == *old(self),
    {
        match self.find_service_index(node_id, service_type) {
            Some(index) => {
                proof {
                    lemma_count_some_update(self.services@, index as int, None::<ServiceEntry>);
                    lemma_count_some_pos(self.services@, index as int);
                    lemma_first_key_match_unique(
                        self.services@,
                        node_id,
                        service_type,
                        index as int,
                        choose|i: int|
                            is_first_key_match(self.services@, node_id, service_type, i),
                    );
                }
                self.services.set(index, None);
                self.service_count = self.service_count - 1;
            },
            None => {},
        }
    }

    /// Number of registered providers.
    pub fn service_count(&self) -> (r: usize)
        ensures
            r == self.spec_count(),
    {
        self.service_count
    }
}

/// The simpler external-facing directory capability: coarse type-only
/// matching with default capability and metric values, for callers that
/// do not need QoS scoring.
pub trait ServiceDirectory {
    /// Well-formedness the directory maintains across calls.
    spec fn dir_wf(&self) -> bool;

    /// Registers a provider of `service_type` with default capabilities.
    fn register_service(&mut self, node_id: NodeId, service_type: ServiceType)
        requires
            old(self).dir_wf(),
        ensures
            final(self).dir_wf(),
    ;

    /// Finds some provider of `service_type`, ignoring QoS.
    fn find_service(&self, service_type: ServiceType) -> Option<NodeId>;

    /// Drops the provider keyed (node, type).
    fn remove_service(&mut self, node_id: NodeId, service_type: ServiceType)
        requires
            old(self).dir_wf(),
        ensures
            final(self).dir_wf(),
    ;

    /// Number of registered providers.
    fn service_count(&self) -> usize;
}

impl ServiceDirectory for NetworkServiceDirectory {
    open spec fn dir_wf(&self) -> bool {
        self.wf()
    }

    fn register_service(&mut self, node_id: NodeId, service_type: ServiceType) {
        NetworkServiceDirectory::register_service(self, node_id, service_type)
    }

    fn find_service(&self, service_type: ServiceType) -> Option<NodeId> {
        NetworkServiceDirectory::find_service(self, service_type)
    }

    fn remove_service(&mut self, node_id: NodeId, service_type: ServiceType) {
        NetworkServiceDirectory::remove_service(self, node_id, service_type)
    }

    fn service_count(&self) -> usize {
        NetworkServiceDirectory::service_count(self)
    }
}

/// The entry `register_service` files for (node, type).
pub open spec fn default_service_entry(node_id: NodeId, service_type: ServiceType) -> ServiceEntry {
    service_entry(
        node_id,
        service_type,
        0,
        Capabilities { max_bandwidth: 1000, min_latency: 100, reliability: 90, battery_level: 100 },
        ServiceMetrics { success_rate: 100, avg_response_time: 50, signal_strength: -70i8 },
        0,
    )
}

} // verus!
