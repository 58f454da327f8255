//! The state that the monitor keeps for each peer, and the rules by which a
//! probe, a reply and the passing of time change it.

use super::deque::{
    outstanding_get, outstanding_items, outstanding_len, outstanding_new, outstanding_pop_front,
    outstanding_push_back, outstanding_swap_remove_back, Outstanding, HISTORY_CAPACITY,
    OUTSTANDING_CAPACITY,
};
use super::message::Reply;
use super::seq::Sequence;
use super::status::{estimate, last_available, pushed, Latency, Observation, Observations, Status};
use super::time::{duration_nanos, nanos_duration, saturating_difference, spec_ns, Timestamp};
use crate::resolver::Peer;
use std::time::Duration;
use vstd::prelude::*;

verus! {

/// How often the monitor looks for peers and probes them, how long it waits
/// for a reply, how long a peer counts as available after it was last heard
/// of, and the UDP port that probes go to.
#[derive(PartialEq, Eq, Copy, Clone, Debug)]
pub struct Config {
    pub resolve_interval: Duration,
    pub ping_interval: Duration,
    pub ping_timeout: Duration,
    pub idle_timeout: Duration,
    pub port: u16,
}

impl Config {
    /// The default port used for UDP pings.
    pub const DEFAULT_PORT: u16 = 3598;
}

impl Default for Config {
    /// Peers are looked for every 2 s and one is probed every 125 ms; a probe
    /// is given up after 2 s and a peer counts as idle after 5 s.
    fn default() -> (config: Config)
        ensures
            config == (Config {
                resolve_interval: nanos_duration(2_000_000_000),
                ping_interval: nanos_duration(125_000_000),
                ping_timeout: nanos_duration(2_000_000_000),
                idle_timeout: nanos_duration(5_000_000_000),
                port: 3598,
            }),
    {
        Config {
            resolve_interval: Duration::from_nanos(2_000_000_000),
            ping_interval: Duration::from_nanos(125_000_000),
            ping_timeout: Duration::from_nanos(2_000_000_000),
            idle_timeout: Duration::from_nanos(5_000_000_000),
            port: Config::DEFAULT_PORT,
        }
    }
}

/// A probe that was sent and not answered yet.
#[derive(PartialEq, Eq, Structural, PartialOrd, Ord, Debug, Copy, Clone)]
pub struct Sent {
    pub seq: Sequence,
    pub time: Timestamp,
}

/// What the monitor knows of a peer at one point in time.
#[derive(PartialEq, Eq, Clone, Debug)]
pub struct PeerStatus {
    pub peer: Peer,
    pub available: bool,
    pub last_seen: Option<Timestamp>,
    pub last_replied: Option<Timestamp>,
    pub latency: Option<Latency>,
}

/// The probe that a peer could not take: as many as may await a reply do so.
#[derive(PartialEq, Eq, Structural, Debug, Copy, Clone)]
pub struct Capacity {
    pub rejected: Sent,
}

/// Whether the probe at `index` is the one that a reply to `seq` answers: the
/// first one with that sequence number.
pub open spec fn answers(sent: Seq<Sent>, seq: Sequence, index: int) -> bool {
    &&& 0 <= index < sent.len()
    &&& sent[index].seq == seq
    &&& forall|j: int| 0 <= j < index ==> (#[trigger] sent[j]).seq != seq
}

/// Whether a probe with the sequence number `seq` awaits its reply.
pub open spec fn awaited(sent: Seq<Sent>, seq: Sequence) -> bool {
    exists|index: int| 0 <= index < sent.len() && (#[trigger] sent[index]).seq == seq
}

/// The probes without the one at `index`: the last one takes its place.
pub open spec fn without(sent: Seq<Sent>, index: int) -> Seq<Sent> {
    sent.update(index, sent.last()).drop_last()
}

/// Whether a peer that was last seen at `seen` was seen at `cutoff` or later.
pub open spec fn seen_since(seen: Option<Timestamp>, cutoff: Timestamp) -> bool {
    match seen {
        Some(time) => time.0 >= cutoff.0,
        None => false,
    }
}

/// The probes that were sent at `cutoff` or later, in their order.
pub open spec fn fresh(sent: Seq<Sent>, cutoff: Timestamp) -> Seq<Sent>
    decreases sent.len(),
{
    if sent.len() == 0 {
        Seq::empty()
    } else if sent.last().time.0 >= cutoff.0 {
        fresh(sent.drop_last(), cutoff).push(sent.last())
    } else {
        fresh(sent.drop_last(), cutoff)
    }
}

/// The observation of a reply that came at `now` to a probe that was sent at
/// `sent`: available, with the time between the two as the latency.
pub open spec fn answered(now: Timestamp, sent: Timestamp) -> Observation {
    Observation {
        time: now,
        status: Status::Available(nanos_duration(saturating_difference(now.0, sent.0))),
    }
}

/// The observation that gives a probe up at `now`: unavailable for as long
/// as the probe has been out.
pub open spec fn given_up(probe: Sent, now: Timestamp) -> Observation {
    Observation {
        time: now,
        status: Status::Unavailable(nanos_duration(saturating_difference(now.0, probe.time.0))),
    }
}

/// The history after giving up, in their order, the probes that were sent
/// before `cutoff`.
pub open spec fn expired(
    history: Seq<Observation>,
    sent: Seq<Sent>,
    now: Timestamp,
    cutoff: Timestamp,
) -> Seq<Observation>
    decreases sent.len(),
{
    if sent.len() == 0 {
        history
    } else if sent.last().time.0 >= cutoff.0 {
        expired(history, sent.drop_last(), now, cutoff)
    } else {
        pushed(expired(history, sent.drop_last(), now, cutoff), given_up(sent.last(), now))
    }
}

/// The time before which a probe is given up at `now`.
pub open spec fn stale_before(now: Timestamp, timeout: Duration) -> Timestamp {
    Timestamp(saturating_difference(now.0, spec_ns(timeout)))
}

proof fn lemma_fresh_len(sent: Seq<Sent>, cutoff: Timestamp)
    ensures
        fresh(sent, cutoff).len() <= sent.len(),
    decreases sent.len(),
{
    if sent.len() > 0 {
        lemma_fresh_len(sent.drop_last(), cutoff);
    }
}

/// The state of one peer: who it is, when it was last heard of, what was
/// observed of it, and which probes await its reply.
#[derive(Debug)]
pub struct MonitoredPeer {
    pub peer: Peer,
    pub seen: Option<Timestamp>,
    pub observations: Observations,
    pub sent: Outstanding,
}

impl MonitoredPeer {
    /// The probes that await a reply, the front of the deque first.
    pub open spec fn outstanding(&self) -> Seq<Sent> {
        outstanding_items(self.sent)
    }

    /// A peer that was never heard of and never probed.
    pub fn new(peer: Peer) -> (monitored: MonitoredPeer)
        ensures
            monitored.peer == peer,
            monitored.seen is None,
            monitored.observations@ == Seq::<Observation>::empty(),
            monitored.outstanding() == Seq::<Sent>::empty(),
    {
        MonitoredPeer {
            peer,
            seen: None,
            observations: Observations::new(),
            sent: outstanding_new(),
        }
    }

    /// The number of probes that await a reply.
    pub fn outstanding_len(&self) -> (count: usize)
        ensures
            count == self.outstanding().len(),
            count <= OUTSTANDING_CAPACITY,
    {
        outstanding_len(&self.sent)
    }

    /// The probe at `index` among those that await a reply.
    pub fn outstanding_get(&self, index: usize) -> (probe: Option<Sent>)
        ensures
            probe == (if index < self.outstanding().len() {
                Some(self.outstanding()[index as int])
            } else {
                None
            }),
    {
        outstanding_get(&self.sent, index)
    }

    /// Note a probe that was sent at `time` under `seq`. A peer with
    /// [`OUTSTANDING_CAPACITY`] probes out takes no more: the probe comes
    /// back as an error, and nothing changes.
    pub fn add(&mut self, seq: Sequence, time: Timestamp) -> (added: Result<(), Capacity>)
        ensures
            final(self).peer == old(self).peer,
            final(self).seen == old(self).seen,
            final(self).observations == old(self).observations,
            old(self).outstanding().len() < OUTSTANDING_CAPACITY ==> added is Ok && final(self).outstanding() == old(self).outstanding().push(Sent { seq, time }),
            old(self).outstanding().len() >= OUTSTANDING_CAPACITY ==> added == Err::<(), Capacity>(
                Capacity { rejected: Sent { seq, time } },
            ) && final(self).outstanding() == old(self).outstanding(),
    {
        let probe = Sent { seq, time };
        match outstanding_push_back(&mut self.sent, probe) {
            Ok(()) => Ok(()),
            Err(_) => Err(Capacity { rejected: probe }),
        }
    }

    /// Note that the peer was heard of at `now`, and return when it was
    /// heard of before.
    pub fn touch(&mut self, now: Timestamp) -> (before: Option<Timestamp>)
        ensures
            before == old(self).seen,
            final(self).seen == Some(now),
            final(self).peer == old(self).peer,
            final(self).observations == old(self).observations,
            final(self).outstanding() == old(self).outstanding(),
    {
        let before = self.seen;
        self.seen = Some(now);
        before
    }

    /// Take in a reply that arrived at `now`.
    ///
    /// The peer was seen at `now`. Where a probe with the sequence number
    /// that the reply answers awaits its reply, the first such probe leaves
    /// the deque, the last probe taking its place, and the peer is observed
    /// available at `now`, with the time since the probe was sent as its
    /// latency. Where none does, neither the probes nor the observations
    /// change.
    pub fn receive(&mut self, reply: Reply, now: Timestamp)
        ensures
            final(self).peer == old(self).peer,
            final(self).seen == Some(now),
            !awaited(old(self).outstanding(), reply.to) ==> final(self).outstanding() == old(self).outstanding() && final(self).observations@ == old(self).observations@,
            forall|index: int|
                answers(old(self).outstanding(), reply.to, index) ==> final(self).outstanding()
                    == without(old(self).outstanding(), index) && final(self).observations@
                    == pushed(
                    old(self).observations@,
                    answered(now, (#[trigger] old(self).outstanding()[index]).time),
                ),
    {
        self.seen = Some(now);
        let count = outstanding_len(&self.sent);
        let mut i: usize = 0;
        while i < count
            invariant
                i <= count,
                count == self.outstanding().len(),
                self.sent == old(self).sent,
                self.observations == old(self).observations,
                self.peer == old(self).peer,
                self.seen == Some(now),
                forall|j: int| 0 <= j < i ==> (#[trigger] self.outstanding()[j]).seq != reply.to,
            decreases count - i,
        {
            match outstanding_get(&self.sent, i) {
                Some(probe) => {
                    if probe.seq == reply.to {
                        assert(answers(old(self).outstanding(), reply.to, i as int));
                        let _ = outstanding_swap_remove_back(&mut self.sent, i);
                        let latency = now - probe.time;
                        self.observations.add(Observation::new(now, Status::Available(latency)));
                        assert forall|index: int|
                            answers(old(self).outstanding(), reply.to, index) implies index
                            == i by {
                            if index < i {
                                assert(old(self).outstanding()[index].seq != reply.to);
                            }
                            if index > i {
                                assert(old(self).outstanding()[i as int].seq == reply.to);
                            }
                        }
                        return ;
                    }
                },
                None => {},
            }
            i += 1;
        }
        assert(!awaited(old(self).outstanding(), reply.to));
    }

    /// The status of the peer, for one who counts it available if it was
    /// seen at `cutoff` or later. `average` is the weighted average of the
    /// latency samples, which the caller has computed: see
    /// [`Observations::latency`].
    pub fn status(&self, cutoff: Timestamp, average: Duration) -> (status: PeerStatus)
        ensures
            status.peer == self.peer,
            status.available == seen_since(self.seen, cutoff),
            status.last_seen == self.seen,
            status.last_replied == last_available(self.observations@),
            status.latency == estimate(self.observations@, average),
    {
        let available = match self.seen {
            Some(seen) => seen.into_raw() >= cutoff.into_raw(),
            None => false,
        };
        let last_replied = self.observations.reachable();
        let latency = self.observations.latency(average);
        PeerStatus {
            peer: self.peer.duplicate(),
            available,
            last_seen: self.seen,
            last_replied,
            latency,
        }
    }

    /// Give up, at `now`, the probes that were sent more than `timeout`
    /// before: each leaves the deque and is observed unavailable at `now`,
    /// for as long as it has been out. The others stay, in their order.
    pub fn purge_stale(&mut self, now: Timestamp, timeout: Duration)
        ensures
            final(self).peer == old(self).peer,
            final(self).seen == old(self).seen,
            final(self).outstanding() == fresh(
                old(self).outstanding(),
                stale_before(now, timeout),
            ),
            final(self).observations@ == expired(
                old(self).observations@,
                old(self).outstanding(),
                now,
                stale_before(now, timeout),
            ),
    {
        let cutoff = now - timeout;
        let count = outstanding_len(&self.sent);
        let ghost before = self.outstanding();
        let ghost history = self.observations@;
        let mut i: usize = 0;
        assert(before.skip(0) =~= before);
        while i < count
            invariant
                i <= count,
                count == before.len(),
                count <= OUTSTANDING_CAPACITY,
                before == old(self).outstanding(),
                history == old(self).observations@,
                cutoff == stale_before(now, timeout),
                self.peer == old(self).peer,
                self.seen == old(self).seen,
                self.outstanding() == before.skip(i as int) + fresh(
                    before.subrange(0, i as int),
                    cutoff,
                ),
                self.observations@ == expired(history, before.subrange(0, i as int), now, cutoff),
            decreases count - i,
        {
            proof {
                lemma_fresh_len(before.subrange(0, i as int), cutoff);
                assert(before.subrange(0, i + 1).drop_last() =~= before.subrange(0, i as int));
            }
            match outstanding_pop_front(&mut self.sent) {
                Some(probe) => {
                    assert(probe == before[i as int]);
                    if probe.time.into_raw() >= cutoff.into_raw() {
                        let _ = outstanding_push_back(&mut self.sent, probe);
                        assert(self.outstanding() =~= before.skip(i + 1) + fresh(
                            before.subrange(0, i + 1),
                            cutoff,
                        ));
                    } else {
                        let elapsed = now - probe.time;
                        self.observations.add(Observation::new(now, Status::Unavailable(elapsed)));
                        assert(self.outstanding() =~= before.skip(i + 1) + fresh(
                            before.subrange(0, i + 1),
                            cutoff,
                        ));
                    }
                },
                None => {},
            }
            i += 1;
        }
        assert(before.subrange(0, i as int) =~= before);
        assert(self.outstanding() =~= fresh(before, cutoff));
    }

    /// Whether the peer is worth a probe, for one who counts it seen if it
    /// was seen at `cutoff` or later: it was seen, or it has answered a probe
    /// that its history still holds, or its history is not full yet.
    pub fn is_eligible(&self, cutoff: Timestamp) -> (eligible: bool)
        ensures
            eligible == (seen_since(self.seen, cutoff) || last_available(self.observations@)
                is Some || self.observations@.len() < HISTORY_CAPACITY),
    {
        let seen = match self.seen {
            Some(seen) => seen.into_raw() >= cutoff.into_raw(),
            None => false,
        };
        seen || self.observations.reachable().is_some() || !self.observations.is_full()
    }
}

/// The probes that were sent before `cutoff`, in their order.
pub open spec fn stale(sent: Seq<Sent>, cutoff: Timestamp) -> Seq<Sent>
    decreases sent.len(),
{
    if sent.len() == 0 {
        Seq::empty()
    } else if sent.last().time.0 >= cutoff.0 {
        stale(sent.drop_last(), cutoff)
    } else {
        stale(sent.drop_last(), cutoff).push(sent.last())
    }
}

/// Every probe is either fresh or stale, and keeps its place among its kind.
pub proof fn lemma_fresh_and_stale(sent: Seq<Sent>, cutoff: Timestamp)
    ensures
        fresh(sent, cutoff).len() + stale(sent, cutoff).len() == sent.len(),
        forall|i: int|
            0 <= i < fresh(sent, cutoff).len() ==> (#[trigger] fresh(sent, cutoff)[i]).time.0
                >= cutoff.0 && sent.contains(fresh(sent, cutoff)[i]),
        forall|i: int|
            0 <= i < stale(sent, cutoff).len() ==> (#[trigger] stale(sent, cutoff)[i]).time.0
                < cutoff.0 && sent.contains(stale(sent, cutoff)[i]),
        forall|i: int|
            0 <= i < sent.len() ==> if (#[trigger] sent[i]).time.0 >= cutoff.0 {
                fresh(sent, cutoff).contains(sent[i])
            } else {
                stale(sent, cutoff).contains(sent[i])
            },
    decreases sent.len(),
{
    if sent.len() > 0 {
        let before = sent.drop_last();
        let last = sent.last();
        lemma_fresh_and_stale(before, cutoff);
        let f = fresh(sent, cutoff);
        let t = stale(sent, cutoff);
        assert(sent[sent.len() - 1] == last);
        assert forall|i: int| 0 <= i < f.len() implies (#[trigger] f[i]).time.0 >= cutoff.0
            && sent.contains(f[i]) by {
            if i < fresh(before, cutoff).len() {
                let x = fresh(before, cutoff)[i];
                assert(before.contains(x));
                let k = choose|k: int| 0 <= k < before.len() && before[k] == x;
                assert(sent[k] == x);
            }
        }
        assert forall|i: int| 0 <= i < t.len() implies (#[trigger] t[i]).time.0 < cutoff.0
            && sent.contains(t[i]) by {
            if i < stale(before, cutoff).len() {
                let x = stale(before, cutoff)[i];
                assert(before.contains(x));
                let k = choose|k: int| 0 <= k < before.len() && before[k] == x;
                assert(sent[k] == x);
            }
        }
        assert forall|i: int| 0 <= i < sent.len() implies if (#[trigger] sent[i]).time.0
            >= cutoff.0 {
            f.contains(sent[i])
        } else {
            t.contains(sent[i])
        } by {
            if i < before.len() {
                assert(sent[i] == before[i]);
                if sent[i].time.0 >= cutoff.0 {
                    let k = choose|k: int|
                        0 <= k < fresh(before, cutoff).len() && fresh(before, cutoff)[k]
                            == before[i];
                    assert(f[k] == sent[i]);
                } else {
                    let k = choose|k: int|
                        0 <= k < stale(before, cutoff).len() && stale(before, cutoff)[k]
                            == before[i];
                    assert(t[k] == sent[i]);
                }
            } else {
                if last.time.0 >= cutoff.0 {
                    assert(f[f.len() - 1] == last);
                } else {
                    assert(t[t.len() - 1] == last);
                }
            }
        }
    }
}

/// Giving probes up adds one observation for each stale probe, and these
/// are the newest of the history afterwards, in the order of the probes.
pub proof fn lemma_expired(
    history: Seq<Observation>,
    sent: Seq<Sent>,
    now: Timestamp,
    cutoff: Timestamp,
)
    requires
        history.len() <= HISTORY_CAPACITY,
        sent.len() <= HISTORY_CAPACITY,
    ensures
        expired(history, sent, now, cutoff).len() <= HISTORY_CAPACITY,
        stale(sent, cutoff).len() <= expired(history, sent, now, cutoff).len(),
        stale(sent, cutoff).len() == 0 ==> expired(history, sent, now, cutoff) == history,
        forall|j: int|
            0 <= j < stale(sent, cutoff).len() ==> expired(history, sent, now, cutoff)[expired(
                history,
                sent,
                now,
                cutoff,
            ).len() - stale(sent, cutoff).len() + j] == given_up(
                #[trigger] stale(sent, cutoff)[j],
                now,
            ),
    decreases sent.len(),
{
    if sent.len() > 0 {
        let before = sent.drop_last();
        lemma_expired(history, before, now, cutoff);
        lemma_fresh_and_stale(sent, cutoff);
        lemma_fresh_and_stale(before, cutoff);
        let e0 = expired(history, before, now, cutoff);
        let e = expired(history, sent, now, cutoff);
        let t0 = stale(before, cutoff);
        let t = stale(sent, cutoff);
        if sent.last().time.0 < cutoff.0 {
            let x = given_up(sent.last(), now);
            assert(e == pushed(e0, x));
            assert(t.len() == t0.len() + 1);
            assert(t.len() <= HISTORY_CAPACITY);
            assert forall|j: int| 0 <= j < t.len() implies e[e.len() - t.len() + j] == given_up(
                #[trigger] t[j],
                now,
            ) by {
                if j < t0.len() {
                    assert(t[j] == t0[j]);
                    assert(e0[e0.len() - t0.len() + j] == given_up(t0[j], now));
                    if e0.len() < HISTORY_CAPACITY {
                        assert(e[e.len() - t.len() + j] == e0[e0.len() - t0.len() + j]);
                    } else {
                        assert(e[e.len() - t.len() + j] == e0.skip(1)[e.len() - t.len() + j]);
                    }
                }
            }
        }
    }
}

/// A probe is given up only after more than the timeout: one that was sent
/// before the time that lies `timeout` before `now` has been out for longer
/// than `timeout`.
pub proof fn lemma_stale_is_overdue(probe: Sent, now: Timestamp, timeout: Duration)
    requires
        probe.time.0 < stale_before(now, timeout).0,
    ensures
        saturating_difference(now.0, probe.time.0) > duration_nanos(timeout),
{
}

} // verus!
