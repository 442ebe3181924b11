//! Per-flow connection accounting: at most one statistics record per flow
//! identity, updated in place on every observed packet.

use vstd::prelude::*;

use crate::addr::IpAddress;
use crate::category::PacketType;

verus! {

/// The identity of a flow: both endpoints, both ports, and the derived
/// service category.
#[derive(Debug, Clone, Copy, PartialEq, Eq, Structural)]
pub struct ConnectionId {
    pub src_ip: IpAddress,
    pub dst_ip: IpAddress,
    pub src_port: u16,
    pub dst_port: u16,
    pub protocol: PacketType,
}

/// The cumulative statistics of one flow.  Timestamps are milliseconds on
/// the caller's monotonic clock; counters saturate rather than wrap.
#[derive(Debug, Clone, Copy, PartialEq, Eq, Structural)]
pub struct ConnectionStats {
    pub first_seen: u64,
    pub last_seen: u64,
    pub packet_count: u64,
    pub byte_count: u64,
}

/// The record created for the first packet of a flow.
pub open spec fn spec_fresh_stats(now: u64, byte_len: u64) -> ConnectionStats {
    ConnectionStats { first_seen: now, last_seen: now, packet_count: 1, byte_count: byte_len }
}

/// The record after one more packet: `last_seen` moves to `now`, the
/// packet count grows by one and the byte count by `byte_len`, both
/// saturating.
pub open spec fn spec_updated_stats(prev: ConnectionStats, now: u64, byte_len: u64) -> ConnectionStats {
    ConnectionStats {
        first_seen: prev.first_seen,
        last_seen: now,
        packet_count: prev.packet_count.saturating_add(1),
        byte_count: prev.byte_count.saturating_add(byte_len),
    }
}

/// What recording one packet does to the table, as a map: insert a fresh
/// record for an unseen key, update the existing record otherwise.  No
/// other key is touched.
pub open spec fn spec_record(
    m: Map<ConnectionId, ConnectionStats>,
    id: ConnectionId,
    now: u64,
    byte_len: u64,
) -> Map<ConnectionId, ConnectionStats> {
    if m.dom().contains(id) {
        m.insert(id, spec_updated_stats(m[id], now, byte_len))
    } else {
        m.insert(id, spec_fresh_stats(now, byte_len))
    }
}

/// The map held by a sequence of key/record pairs; later pairs would win,
/// though a well-formed table never repeats a key.
pub open spec fn pairs_map(s: Seq<(ConnectionId, ConnectionStats)>) -> Map<
    ConnectionId,
    ConnectionStats,
>
    decreases s.len(),
{
    if s.len() == 0 {
        Map::empty()
    } else {
        pairs_map(s.drop_last()).insert(s.last().0, s.last().1)
    }
}

/// The shared table from flow identity to cumulative statistics.  Flows
/// are never evicted; the table grows for the life of the capture, an
/// accepted limitation of the design.
pub struct FlowTable {
    entries: Vec<(ConnectionId, ConnectionStats)>,
}

impl View for FlowTable {
    type V = Map<ConnectionId, ConnectionStats>;

    closed spec fn view(&self) -> Map<ConnectionId, ConnectionStats> {
        pairs_map(self.entries@)
    }
}

proof fn lemma_pairs_map_contains(s: Seq<(ConnectionId, ConnectionStats)>, id: ConnectionId)
    ensures
        pairs_map(s).dom().contains(id) <==> exists|i: int| 0 <= i < s.len() && s[i].0 == id,
    decreases s.len(),
{
    if s.len() > 0 {
        lemma_pairs_map_contains(s.drop_last(), id);
        if s.last().0 == id {
            assert(s[s.len() - 1].0 == id);
        } else if pairs_map(s).dom().contains(id) {
            let i = choose|i: int| 0 <= i < s.drop_last().len() && s.drop_last()[i].0 == id;
            assert(s[i].0 == id);
        } else {
            assert forall|i: int| 0 <= i < s.len() implies s[i].0 != id by {
                if i < s.len() - 1 {
                    assert(s.drop_last()[i] == s[i]);
                }
            }
        }
    }
}

proof fn lemma_pairs_map_finite(s: Seq<(ConnectionId, ConnectionStats)>)
    ensures
        pairs_map(s).dom().finite(),
        pairs_map(s).dom().len() <= s.len(),
    decreases s.len(),
{
    if s.len() > 0 {
        lemma_pairs_map_finite(s.drop_last());
    }
}

/// No two entries share a key.
pub open spec fn unique_keys(s: Seq<(ConnectionId, ConnectionStats)>) -> bool {
    forall|i: int, j: int| 0 <= i < j < s.len() ==> s[i].0 != s[j].0
}

proof fn lemma_pairs_map_index(s: Seq<(ConnectionId, ConnectionStats)>, i: int)
    requires
        unique_keys(s),
        0 <= i < s.len(),
    ensures
        pairs_map(s).dom().contains(s[i].0),
        pairs_map(s)[s[i].0] == s[i].1,
    decreases s.len(),
{
    if i == s.len() - 1 {
    } else {
        assert(s.drop_last()[i] == s[i]);
        lemma_pairs_map_index(s.drop_last(), i);
        assert(s[s.len() - 1].0 != s[i].0);
    }
}

proof fn lemma_pairs_map_len(s: Seq<(ConnectionId, ConnectionStats)>)
    requires
        unique_keys(s),
    ensures
        pairs_map(s).dom().finite(),
        pairs_map(s).dom().len() == s.len(),
    decreases s.len(),
{
    lemma_pairs_map_finite(s);
    if s.len() > 0 {
        lemma_pairs_map_len(s.drop_last());
        lemma_pairs_map_contains(s.drop_last(), s.last().0);
        assert forall|i: int| 0 <= i < s.drop_last().len() implies s.drop_last()[i].0 != s.last().0
            by {
            assert(s.drop_last()[i] == s[i]);
        }
        assert(!pairs_map(s.drop_last()).dom().contains(s.last().0));
    }
}

proof fn lemma_pairs_map_update(
    s: Seq<(ConnectionId, ConnectionStats)>,
    i: int,
    v: ConnectionStats,
)
    requires
        unique_keys(s),
        0 <= i < s.len(),
    ensures
        pairs_map(s.update(i, (s[i].0, v))) =~= pairs_map(s).insert(s[i].0, v),
    decreases s.len(),
{
    let t = s.update(i, (s[i].0, v));
    if i == s.len() - 1 {
        assert(t.drop_last() =~= s.drop_last());
    } else {
        assert(t.drop_last() =~= s.drop_last().update(i, (s[i].0, v)));
        assert(s.drop_last()[i] == s[i]);
        lemma_pairs_map_update(s.drop_last(), i, v);
        assert(s[s.len() - 1].0 != s[i].0);
    }
}

impl FlowTable {
    /// Well-formedness: at most one record per flow identity.
    pub closed spec fn wf(&self) -> bool {
        unique_keys(self.entries@)
    }

    /// The table's entries in insertion order: the enumeration that
    /// `entry_at` walks.
    pub closed spec fn entries_seq(&self) -> Seq<(ConnectionId, ConnectionStats)> {
        self.entries@
    }

    /// An empty table.
    pub fn new() -> (t: FlowTable)
        ensures
            t.wf(),
            t@ == Map::<ConnectionId, ConnectionStats>::empty(),
    {
        FlowTable { entries: Vec::new() }
    }

    /// How many flows the table holds.
    pub fn len(&self) -> (n: usize)
        requires
            self.wf(),
        ensures
            n == self@.dom().len(),
            n == self.entries_seq().len(),
    {
        proof {
            lemma_pairs_map_len(self.entries@);
        }
        self.entries.len()
    }

    /// The flow at one position, for walking a snapshot of the table: the
    /// pair at position `i` of the enumeration, a genuine entry of the
    /// table's map.  Walking positions `0..len()` visits every flow
    /// exactly once (see `lemma_enumeration_complete`).
    pub fn entry_at(&self, i: usize) -> (pair: (ConnectionId, ConnectionStats))
        requires
            self.wf(),
            i < self@.dom().len(),
        ensures
            pair == self.entries_seq()[i as int],
            self@.dom().contains(pair.0),
            self@[pair.0] == pair.1,
    {
        proof {
            lemma_pairs_map_len(self.entries@);
            lemma_pairs_map_index(self.entries@, i as int);
        }
        self.entries[i]
    }

    /// Law: the enumeration that `entry_at` walks covers the table
    /// completely — one position per flow, no key repeated, every pair a
    /// genuine entry, and every key of the map at some position.
    pub proof fn lemma_enumeration_complete(&self)
        requires
            self.wf(),
        ensures
            self.entries_seq().len() == self@.dom().len(),
            forall|i: int, j: int|
                0 <= i < j < self.entries_seq().len() ==> self.entries_seq()[i].0
                    != self.entries_seq()[j].0,
            forall|i: int|
                0 <= i < self.entries_seq().len() ==> self@.dom().contains(
                    (#[trigger] self.entries_seq()[i]).0,
                ) && self@[self.entries_seq()[i].0] == self.entries_seq()[i].1,
            forall|id: ConnectionId|
                self@.dom().contains(id) ==> exists|i: int|
                    0 <= i < self.entries_seq().len() && (#[trigger] self.entries_seq()[i]).0 == id,
    {
        lemma_pairs_map_len(self.entries@);
        assert forall|i: int| 0 <= i < self.entries_seq().len() implies self@.dom().contains(
            (#[trigger] self.entries_seq()[i]).0,
        ) && self@[self.entries_seq()[i].0] == self.entries_seq()[i].1 by {
            lemma_pairs_map_index(self.entries@, i);
        }
        assert forall|id: ConnectionId| self@.dom().contains(id) implies exists|i: int|
            0 <= i < self.entries_seq().len() && (#[trigger] self.entries_seq()[i]).0 == id by {
            lemma_pairs_map_contains(self.entries@, id);
            let i = choose|i: int| 0 <= i < self.entries@.len() && self.entries@[i].0 == id;
            assert(0 <= i < self.entries_seq().len() && self.entries_seq()[i].0 == id);
        }
    }

    /// The statistics recorded for a flow, if any.
    pub fn get(&self, id: &ConnectionId) -> (r: Option<ConnectionStats>)
        requires
            self.wf(),
        ensures
            match r {
                Some(stats) => self@.dom().contains(*id) && self@[*id] == stats,
                None => !self@.dom().contains(*id),
            },
    {
        let n = self.entries.len();
        for i in 0..n
            invariant
                n == self.entries@.len(),
                forall|j: int| 0 <= j < i ==> self.entries@[j].0 != *id,
                self.wf(),
        {
            if self.entries[i].0 == *id {
                proof {
                    lemma_pairs_map_index(self.entries@, i as int);
                }
                return Some(self.entries[i].1);
            }
        }
        proof {
            lemma_pairs_map_contains(self.entries@, *id);
        }
        None
    }

    /// Records one packet for a flow: the first packet of a key creates
    /// its record, every later packet updates it in place, and no other
    /// key is touched.
    pub fn record(&mut self, id: ConnectionId, now: u64, byte_len: u64)
        requires
            old(self).wf(),
        ensures
            final(self).wf(),
            final(self)@ == spec_record(old(self)@, id, now, byte_len),
    {
        let n = self.entries.len();
        for i in 0..n
            invariant
                n == self.entries@.len(),
                forall|j: int| 0 <= j < i ==> self.entries@[j].0 != id,
                self.wf(),
                self.entries@ == old(self).entries@,
        {
            if self.entries[i].0 == id {
                let prev = self.entries[i].1;
                let updated = ConnectionStats {
                    first_seen: prev.first_seen,
                    last_seen: now,
                    packet_count: prev.packet_count.saturating_add(1),
                    byte_count: prev.byte_count.saturating_add(byte_len),
                };
                proof {
                    lemma_pairs_map_index(self.entries@, i as int);
                    lemma_pairs_map_update(self.entries@, i as int, updated);
                }
                self.entries.set(i, (id, updated));
                assert(unique_keys(self.entries@)) by {
                    assert(forall|k: int|
                        0 <= k < self.entries@.len() ==> self.entries@[k].0 == old(
                            self,
                        ).entries@[k].0);
                }
                return ;
            }
        }
        proof {
            lemma_pairs_map_contains(self.entries@, id);
        }
        let fresh = ConnectionStats {
            first_seen: now,
            last_seen: now,
            packet_count: 1,
            byte_count: byte_len,
        };
        self.entries.push((id, fresh));
        proof {
            assert(self.entries@.drop_last() =~= old(self).entries@);
            assert(self.entries@.last() == (id, fresh));
            assert(pairs_map(self.entries@) == pairs_map(old(self).entries@).insert(id, fresh));
            assert(unique_keys(self.entries@)) by {
                assert(forall|k: int|
                    0 <= k < old(self).entries@.len() ==> self.entries@[k] == old(
                        self,
                    ).entries@[k]);
            }
        }
    }
}

/// Law: recording never touches any other flow's record, and the recorded
/// flow's record is always a complete, fully determined value — an unseen
/// key gets the fresh record, a seen key gets the in-place update.
pub proof fn lemma_record_frame(
    m: Map<ConnectionId, ConnectionStats>,
    id: ConnectionId,
    now: u64,
    byte_len: u64,
)
    ensures
        spec_record(m, id, now, byte_len).dom() =~= m.dom().insert(id),
        spec_record(m, id, now, byte_len)[id] == if m.dom().contains(id) {
            spec_updated_stats(m[id], now, byte_len)
        } else {
            spec_fresh_stats(now, byte_len)
        },
        forall|other: ConnectionId|
            m.dom().contains(other) && other != id ==> spec_record(m, id, now, byte_len)[other]
                == m[other],
{
}

/// The table after a whole sequence of packets for one key is recorded,
/// oldest first; each observation is a timestamp/byte-length pair.
pub open spec fn spec_record_all(
    m: Map<ConnectionId, ConnectionStats>,
    id: ConnectionId,
    obs: Seq<(u64, u64)>,
) -> Map<ConnectionId, ConnectionStats>
    decreases obs.len(),
{
    if obs.len() == 0 {
        m
    } else {
        spec_record(spec_record_all(m, id, obs.drop_last()), id, obs.last().0, obs.last().1)
    }
}

/// The sum of the byte lengths of a sequence of observations.
pub open spec fn spec_byte_sum(obs: Seq<(u64, u64)>) -> int
    decreases obs.len(),
{
    if obs.len() == 0 {
        0
    } else {
        spec_byte_sum(obs.drop_last()) + obs.last().1
    }
}

/// Law: recording N packets for one unseen key yields exactly one record
/// for that key — the table grows by exactly that key — whose packet count
/// is N, whose byte count is the sum of the byte lengths, and whose
/// timestamps satisfy `first_seen <= last_seen`; no other key's record
/// changes.  Stated for counts and sums below the saturation bound and for
/// timestamps fed from a monotone clock.
pub proof fn lemma_repeated_record(
    m: Map<ConnectionId, ConnectionStats>,
    id: ConnectionId,
    obs: Seq<(u64, u64)>,
)
    requires
        !m.dom().contains(id),
        obs.len() >= 1,
        obs.len() <= u64::MAX,
        spec_byte_sum(obs) <= u64::MAX,
        forall|i: int, j: int| 0 <= i <= j < obs.len() ==> obs[i].0 <= obs[j].0,
    ensures
        spec_record_all(m, id, obs).dom() =~= m.dom().insert(id),
        spec_record_all(m, id, obs)[id] == (ConnectionStats {
            first_seen: obs[0].0,
            last_seen: obs.last().0,
            packet_count: obs.len() as u64,
            byte_count: spec_byte_sum(obs) as u64,
        }),
        forall|other: ConnectionId|
            m.dom().contains(other) && other != id ==> spec_record_all(m, id, obs)[other]
                == m[other],
    decreases obs.len(),
{
    if obs.len() == 1 {
        assert(obs.drop_last().len() == 0);
        assert(spec_record_all(m, id, obs.drop_last()) == m);
        assert(obs.last() == obs[0]);
        assert(spec_record_all(m, id, obs) == spec_record(m, id, obs[0].0, obs[0].1));
        assert(spec_byte_sum(obs.drop_last()) == 0);
        assert(spec_byte_sum(obs) == obs[0].1);
    } else {
        let front = obs.drop_last();
        assert(spec_byte_sum(front) + obs.last().1 == spec_byte_sum(obs));
        assert(spec_byte_sum(front) >= 0) by {
            lemma_byte_sum_nonneg(front);
        }
        assert(forall|k: int| 0 <= k < front.len() ==> front[k] == obs[k]);
        lemma_repeated_record(m, id, front);
        let table = spec_record_all(m, id, front);
        assert(table.dom().contains(id));
        let prev = table[id];
        assert(prev.packet_count == front.len());
        assert(prev.packet_count + 1 == obs.len());
        assert(prev.byte_count + obs.last().1 == spec_byte_sum(obs));
        assert(spec_record_all(m, id, obs) == spec_record(table, id, obs.last().0, obs.last().1));
        assert(spec_record(table, id, obs.last().0, obs.last().1)[id] == spec_updated_stats(
            prev,
            obs.last().0,
            obs.last().1,
        ));
        assert(prev.byte_count == spec_byte_sum(front));
        assert(spec_updated_stats(prev, obs.last().0, obs.last().1).packet_count == obs.len());
        assert(spec_updated_stats(prev, obs.last().0, obs.last().1).byte_count == spec_byte_sum(
            obs,
        ));
    }
}

/// The byte sum of a sequence of observations is never negative.
pub proof fn lemma_byte_sum_nonneg(obs: Seq<(u64, u64)>)
    ensures
        spec_byte_sum(obs) >= 0,
    decreases obs.len(),
{
    if obs.len() > 0 {
        lemma_byte_sum_nonneg(obs.drop_last());
    }
}

} // verus!
