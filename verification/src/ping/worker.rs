//! The decisions of the monitor's worker: what to make of a datagram, how to
//! answer a probe, whom to probe next and with what, and which peers to take
//! up or let go when discovery reports. The worker itself, which owns the
//! socket and the timers, carries these decisions out.

use super::buffer::unread;
use super::deque::OUTSTANDING_CAPACITY;
use super::message::{Contents, Message, Reply, Request};
use super::monitor::{
    answered, answers, awaited, expired, fresh, stale_before, without, Config, MonitoredPeer, Sent,
};
use super::seq::{successor, Counter, Sequence};
use super::status::pushed;
use super::time::Timestamp;
use crate::machine::{parse_machine_id, MachineId};
use crate::resolver::Peer;
use bytes::Bytes;
use rand::seq::SliceRandom;
use std::collections::VecDeque;
use vstd::prelude::*;

verus! {

/// Why a datagram was dropped.
#[derive(PartialEq, Eq, Structural, Copy, Clone, Debug)]
pub enum Rejected {
    /// It holds no message.
    Invalid,
    /// It holds a message for another machine.
    Foreign(MachineId),
}

/// Why no probe went out to a peer.
#[derive(PartialEq, Eq, Structural, Copy, Clone, Debug)]
pub enum PingError {
    /// As many probes as may await a reply do so: the peer is not responding.
    Capacity(MachineId),
    /// The peer is not in the table.
    Lookup(MachineId),
    /// The peer's entry is in use.
    Contention(MachineId),
}

/// Why a peer's entry could not be had for a probe.
#[derive(PartialEq, Eq, Structural, Copy, Clone, Debug)]
pub enum Missing {
    /// The table holds no such peer.
    Absent,
    /// Another task holds the entry.
    Locked,
}

/// What to make of a datagram that came to `local`.
pub open spec fn accepted(bytes: Seq<u8>, local: MachineId) -> Result<Message, Rejected> {
    match Message::decoded(bytes) {
        Some(message) => if message.to == local {
            Ok(message)
        } else {
            Err(Rejected::Foreign(message.to))
        },
        None => Err(Rejected::Invalid),
    }
}

/// Read a datagram that came to `local`: the message in it, unless it holds
/// none or holds one for another machine.
pub fn accept(data: &mut Bytes, local: MachineId) -> (message: Result<Message, Rejected>)
    ensures
        message == accepted(unread(*old(data)), local),
        unread(*final(data)) == unread(*old(data)).skip(
            Message::consumed(unread(*old(data))) as int,
        ),
{
    match Message::read(data) {
        Some(message) => if message.to == local {
            Ok(message)
        } else {
            Err(Rejected::Foreign(message.to))
        },
        None => Err(Rejected::Invalid),
    }
}

/// The reply of `local` to a probe: to its sender, under `seq`, answering
/// the probe's sequence number, with the time the probe was sent, the time
/// `now` at which it came, and the time `last` at which its sender was heard
/// of before.
pub open spec fn reply_to(
    local: MachineId,
    from: MachineId,
    probe: Sequence,
    request: Request,
    seq: Sequence,
    now: Timestamp,
    last: Option<Timestamp>,
) -> Message {
    Message {
        from: local,
        to: from,
        seq,
        contents: Contents::Reply(Reply { to: probe, sent: request.sent, received: now, last }),
    }
}

/// The probe of `local` to the peer `id`: under `seq`, sent at `now`, with
/// the time `last` at which the peer was last heard of.
pub open spec fn probe_for(
    local: MachineId,
    id: MachineId,
    seq: Sequence,
    now: Timestamp,
    last: Option<Timestamp>,
) -> Message {
    Message { from: local, to: id, seq, contents: Contents::Request(Request { sent: now, last }) }
}

/// Get a peer ready for a probe at `now` under `seq`, and make the probe.
///
/// First the probes that were sent more than `timeout` before are given up.
/// Then the new probe joins those that await a reply, unless as many as may do
/// so are left: then the peer is not responding, and no probe is made.
pub fn probe(
    peer: &mut MonitoredPeer,
    local: MachineId,
    id: MachineId,
    seq: Sequence,
    now: Timestamp,
    timeout: std::time::Duration,
) -> (message: Result<Message, PingError>)
    ensures
        final(peer).peer == old(peer).peer,
        final(peer).seen == old(peer).seen,
        final(peer).observations@ == expired(
            old(peer).observations@,
            old(peer).outstanding(),
            now,
            stale_before(now, timeout),
        ),
        ({
            let left = fresh(old(peer).outstanding(), stale_before(now, timeout));
            if left.len() < OUTSTANDING_CAPACITY {
                &&& message == Ok::<Message, PingError>(
                    probe_for(local, id, seq, now, old(peer).seen),
                )
                &&& final(peer).outstanding() == left.push(Sent { seq, time: now })
            } else {
                &&& message == Err::<Message, PingError>(PingError::Capacity(id))
                &&& final(peer).outstanding() == left
            }
        }),
{
    peer.purge_stale(now, timeout);
    match peer.add(seq, now) {
        Ok(()) => Ok(Message::new(local, id, seq, Contents::Request(Request::new(now, peer.seen)))),
        Err(_) => Err(PingError::Capacity(id)),
    }
}

/// `SliceRandom::shuffle` with `rand::thread_rng`: puts the items in a
/// random order. Which order is not known; the items are the same.
#[verifier::external_body]
fn shuffle(ids: &mut Vec<MachineId>)
    ensures
        final(ids)@.to_multiset() == old(ids)@.to_multiset(),
{
    ids.shuffle(&mut rand::thread_rng())
}

/// What the worker's loop may wake up to.
#[derive(PartialEq, Eq, Structural, Copy, Clone, Debug)]
pub enum Event {
    /// A datagram has arrived.
    Datagram,
    /// It is time to look for peers. `finished` says whether the last search,
    /// if there was one, has come to its end.
    ResolveTick { finished: bool },
    /// It is time to probe a peer.
    PingTick,
    /// The monitor is to stop.
    Shutdown,
}

/// What the worker's loop is to do next.
#[derive(PartialEq, Eq, Structural, Copy, Clone, Debug)]
pub enum Action {
    /// Read the datagram and act on it.
    Receive,
    /// Start a search for peers.
    Resolve,
    /// Probe this peer.
    Ping(MachineId),
    /// Nobody waits for a probe: collect the peers that are worth one and
    /// hand them to [`Worker::refill`].
    Refill,
    /// Nothing.
    Skip,
    /// Leave the loop.
    Stop,
}

/// The worker's own state: who it is, how it is configured, the sequence
/// number it uses next, the peers that wait for a probe, and whether it has
/// started a search for peers.
#[derive(Debug)]
pub struct Worker {
    pub local: MachineId,
    pub config: Config,
    pub seq: Counter,
    pub waiting: VecDeque<MachineId>,
    pub resolving: bool,
}

impl Worker {
    /// A worker for the machine `local`, with nobody waiting for a probe and
    /// no search for peers started.
    pub fn new(local: MachineId, config: Config) -> (worker: Worker)
        ensures
            worker.local == local,
            worker.config == config,
            worker.waiting@ == Seq::<MachineId>::empty(),
            !worker.resolving,
            worker.seq@ != 0,
    {
        Worker { local, config, seq: Counter::new(), waiting: VecDeque::new(), resolving: false }
    }

    /// The time since which a peer must have been heard of to count as
    /// available at `now`.
    pub fn cutoff(&self, now: Timestamp) -> (cutoff: Timestamp)
        ensures
            cutoff == stale_before(now, self.config.idle_timeout),
    {
        now - self.config.idle_timeout
    }

    /// What the loop does next, and what the event changes.
    ///
    /// A datagram is read. A search for peers starts at its tick unless one
    /// was started and has not finished. At a probe's tick the peer at the
    /// front of the waiting ones is probed; where nobody waits, the queue
    /// is to be filled again. A shutdown ends the loop.
    pub fn step(&mut self, event: Event) -> (action: Action)
        ensures
            final(self).local == old(self).local,
            final(self).config == old(self).config,
            final(self).seq == old(self).seq,
            match event {
                Event::Datagram => action == Action::Receive && final(self).waiting@ == old(self).waiting@ && final(self).resolving == old(self).resolving,
                Event::ResolveTick { finished } => final(self).waiting@ == old(self).waiting@
                    && final(self).resolving && action == (if old(self).resolving && !finished {
                    Action::Skip
                } else {
                    Action::Resolve
                }),
                Event::PingTick => final(self).resolving == old(self).resolving && (if old(self).waiting@.len() > 0 {
                    action == Action::Ping(old(self).waiting@[0]) && final(self).waiting@ == old(self).waiting@.skip(1)
                } else {
                    action == Action::Refill && final(self).waiting@ == old(self).waiting@
                }),
                Event::Shutdown => action == Action::Stop && final(self).waiting@ == old(self).waiting@ && final(self).resolving == old(self).resolving,
            },
    {
        match event {
            Event::Datagram => Action::Receive,
            Event::ResolveTick { finished } => {
                if self.resolving && !finished {
                    Action::Skip
                } else {
                    self.resolving = true;
                    Action::Resolve
                }
            },
            Event::PingTick => match self.queue() {
                Some(id) => Action::Ping(id),
                None => Action::Refill,
            },
            Event::Shutdown => Action::Stop,
        }
    }

    /// Get the next machine waiting to be pinged, if any waits.
    pub fn queue(&mut self) -> (next: Option<MachineId>)
        ensures
            final(self).local == old(self).local,
            final(self).config == old(self).config,
            final(self).seq == old(self).seq,
            final(self).resolving == old(self).resolving,
            old(self).waiting@.len() == 0 ==> next is None && final(self).waiting@ == old(self).waiting@,
            old(self).waiting@.len() > 0 ==> next == Some(old(self).waiting@[0]) && final(self).waiting@ == old(self).waiting@.skip(1),
    {
        let next = self.waiting.pop_front();
        assert(old(self).waiting@.len() > 0 ==> final(self).waiting@ =~= old(self).waiting@.skip(1)) by {
            if old(self).waiting@.len() > 0 {
                assert(self.waiting@ =~= old(self).waiting@.subrange(
                    1,
                    old(self).waiting@.len() as int,
                ));
            }
        }
        next
    }

    /// Let `ids` wait for a probe, in a random order and behind those that
    /// wait already, and get the next machine to be pinged: none only where
    /// nobody waits at all.
    pub fn refill(&mut self, ids: Vec<MachineId>) -> (next: Option<MachineId>)
        ensures
            final(self).local == old(self).local,
            final(self).config == old(self).config,
            final(self).seq == old(self).seq,
            final(self).resolving == old(self).resolving,
            match next {
                Some(id) => {
                    let all = seq![id] + final(self).waiting@;
                    &&& all.len() == old(self).waiting@.len() + ids@.len()
                    &&& all.subrange(0, old(self).waiting@.len() as int) == old(self).waiting@
                    &&& all.skip(old(self).waiting@.len() as int).to_multiset()
                        == ids@.to_multiset()
                },
                None => old(self).waiting@.len() == 0 && ids@.len() == 0 && final(self).waiting@.len() == 0,
            },
    {
        let mut ids = ids;
        let ghost given = ids@;
        shuffle(&mut ids);
        proof {
            given.to_multiset_ensures();
            ids@.to_multiset_ensures();
        }
        let ghost before = self.waiting@;
        let count = ids.len();
        let mut i: usize = 0;
        while i < count
            invariant
                i <= count,
                count == ids@.len(),
                self.local == old(self).local,
                self.config == old(self).config,
                self.seq == old(self).seq,
                self.resolving == old(self).resolving,
                before == old(self).waiting@,
                self.waiting@ == before + ids@.subrange(0, i as int),
            decreases count - i,
        {
            self.waiting.push_back(ids[i]);
            assert(self.waiting@ =~= before + ids@.subrange(0, i + 1));
            i += 1;
        }
        assert(ids@.subrange(0, i as int) =~= ids@);
        let ghost all = self.waiting@;
        let next = self.waiting.pop_front();
        proof {
            if next is Some {
                assert(seq![next.unwrap()] + self.waiting@ =~= all);
                assert(all.subrange(0, before.len() as int) =~= before);
                assert(all.skip(before.len() as int) =~= ids@);
            }
        }
        next
    }

    /// Answer a probe that came from `from` under the sequence number
    /// `probe`: the reply goes out under the worker's next sequence number.
    /// `last` is when `from` was heard of before, if it is a known peer.
    pub fn answer(
        &mut self,
        from: MachineId,
        probe: Sequence,
        request: Request,
        now: Timestamp,
        last: Option<Timestamp>,
    ) -> (reply: Message)
        ensures
            final(self).local == old(self).local,
            final(self).config == old(self).config,
            final(self).waiting == old(self).waiting,
            final(self).resolving == old(self).resolving,
            final(self).seq@ == successor(old(self).seq@),
            reply.seq@ == old(self).seq@,
            reply == reply_to(old(self).local, from, probe, request, reply.seq, now, last),
    {
        let seq = self.seq.next();
        Message::new(
            self.local,
            from,
            seq,
            Contents::Reply(Reply::new(probe, request.sent, now, last)),
        )
    }

    /// Act on a message from the peer whose state is `peer`, which came at
    /// `now`.
    ///
    /// A probe is answered: the reply goes out under the worker's next
    /// sequence number and tells when the peer was heard of before; the peer
    /// was seen at `now`, and nothing else of it changes. A reply is taken in
    /// as [`MonitoredPeer::receive`] says, and nothing goes out.
    pub fn receive(&mut self, message: &Message, peer: &mut MonitoredPeer, now: Timestamp) -> (reply:
        Option<Message>)
        ensures
            final(self).local == old(self).local,
            final(self).config == old(self).config,
            final(self).waiting == old(self).waiting,
            final(self).resolving == old(self).resolving,
            final(peer).peer == old(peer).peer,
            final(peer).seen == Some(now),
            match message.contents {
                Contents::Request(request) => {
                    &&& reply is Some
                    &&& reply.unwrap().seq@ == old(self).seq@
                    &&& reply.unwrap() == reply_to(
                        old(self).local,
                        message.from,
                        message.seq,
                        request,
                        reply.unwrap().seq,
                        now,
                        old(peer).seen,
                    )
                    &&& final(self).seq@ == successor(old(self).seq@)
                    &&& final(peer).outstanding() == old(peer).outstanding()
                    &&& final(peer).observations == old(peer).observations
                },
                Contents::Reply(answer) => {
                    &&& reply is None
                    &&& final(self).seq == old(self).seq
                    &&& !awaited(old(peer).outstanding(), answer.to) ==> final(peer).outstanding()
                        == old(peer).outstanding() && final(peer).observations@ == old(peer).observations@
                    &&& forall|index: int|
                        answers(old(peer).outstanding(), answer.to, index) ==> final(peer).outstanding() == without(old(peer).outstanding(), index) && final(peer).observations@ == pushed(
                            old(peer).observations@,
                            answered(
                                now,
                                (#[trigger] old(peer).outstanding()[index]).time,
                            ),
                        )
                },
            },
    {
        match message.contents {
            Contents::Request(request) => {
                let last = peer.touch(now);
                Some(self.answer(message.from, message.seq, request, now, last))
            },
            Contents::Reply(answer) => {
                peer.receive(answer, now);
                None
            },
        }
    }

    /// Act on a message from a machine whose state could not be had, which
    /// came at `now`: a probe is answered, with nothing to tell of when the
    /// machine was heard of before, and a reply is dropped.
    pub fn receive_unknown(&mut self, message: &Message, now: Timestamp) -> (reply: Option<Message>)
        ensures
            final(self).local == old(self).local,
            final(self).config == old(self).config,
            final(self).waiting == old(self).waiting,
            final(self).resolving == old(self).resolving,
            match message.contents {
                Contents::Request(request) => {
                    &&& reply is Some
                    &&& reply.unwrap().seq@ == old(self).seq@
                    &&& reply.unwrap() == reply_to(
                        old(self).local,
                        message.from,
                        message.seq,
                        request,
                        reply.unwrap().seq,
                        now,
                        None,
                    )
                    &&& final(self).seq@ == successor(old(self).seq@)
                },
                Contents::Reply(_) => reply is None && final(self).seq == old(self).seq,
            },
    {
        match message.contents {
            Contents::Request(request) => Some(
                self.answer(message.from, message.seq, request, now, None),
            ),
            Contents::Reply(_) => None,
        }
    }

    /// Pass over the peer `id`, whose entry could not be had. The sequence
    /// number that its probe would have gone out under is used up.
    pub fn pass(&mut self, id: MachineId, missing: Missing) -> (error: PingError)
        ensures
            final(self).local == old(self).local,
            final(self).config == old(self).config,
            final(self).waiting == old(self).waiting,
            final(self).resolving == old(self).resolving,
            final(self).seq@ == successor(old(self).seq@),
            error == (match missing {
                Missing::Absent => PingError::Lookup(id),
                Missing::Locked => PingError::Contention(id),
            }),
    {
        let _ = self.seq.next();
        match missing {
            Missing::Absent => PingError::Lookup(id),
            Missing::Locked => PingError::Contention(id),
        }
    }

    /// Probe the peer `id` at `now`, under the worker's next sequence number:
    /// see [`probe`].
    pub fn ping(&mut self, peer: &mut MonitoredPeer, id: MachineId, now: Timestamp) -> (message:
        Result<Message, PingError>)
        ensures
            final(self).local == old(self).local,
            final(self).config == old(self).config,
            final(self).waiting == old(self).waiting,
            final(self).resolving == old(self).resolving,
            final(self).seq@ == successor(old(self).seq@),
            final(peer).peer == old(peer).peer,
            final(peer).seen == old(peer).seen,
            final(peer).observations@ == expired(
                old(peer).observations@,
                old(peer).outstanding(),
                now,
                stale_before(now, old(self).config.ping_timeout),
            ),
            ({
                let left = fresh(
                    old(peer).outstanding(),
                    stale_before(now, old(self).config.ping_timeout),
                );
                if left.len() < OUTSTANDING_CAPACITY {
                    &&& message is Ok
                    &&& message.unwrap().seq@ == old(self).seq@
                    &&& message.unwrap() == probe_for(
                        old(self).local,
                        id,
                        message.unwrap().seq,
                        now,
                        old(peer).seen,
                    )
                    &&& final(peer).outstanding() == left.push(
                        Sent { seq: message.unwrap().seq, time: now },
                    )
                } else {
                    &&& message == Err::<Message, PingError>(PingError::Capacity(id))
                    &&& final(peer).outstanding() == left
                }
            }),
    {
        let seq = self.seq.next();
        probe(peer, self.local, id, seq, now, self.config.ping_timeout)
    }
}

/// The machine ID that a peer's text stands for, if it stands for one.
pub open spec fn peer_id(peer: Peer) -> Option<u64> {
    parse_machine_id(vstd::utf8::encode_utf8(peer.node.id@))
}

/// The numbers of machine IDs.
pub open spec fn numbers(ids: Seq<MachineId>) -> Seq<u64> {
    ids.map_values(|id: MachineId| id@)
}

/// The machine IDs that the reported peers stand for, in the order of the
/// report. A peer whose text stands for none is left out.
pub open spec fn reported(current: Seq<Peer>) -> Seq<u64>
    decreases current.len(),
{
    if current.len() == 0 {
        Seq::empty()
    } else {
        match peer_id(current.last()) {
            Some(id) => reported(current.drop_last()).push(id),
            None => reported(current.drop_last()),
        }
    }
}

/// The reported peers that the table is to take up, in the order of the
/// report, each with its machine ID: those that are neither the machine
/// `local` itself, nor in the table as `known`, nor reported before under
/// the same machine ID.
pub open spec fn additions(current: Seq<Peer>, local: u64, known: Seq<u64>) -> Seq<(u64, Peer)>
    decreases current.len(),
{
    if current.len() == 0 {
        Seq::empty()
    } else {
        let before = additions(current.drop_last(), local, known);
        match peer_id(current.last()) {
            Some(id) => if id != local && !known.contains(id) && !before.map_values(
                |entry: (u64, Peer)| entry.0,
            ).contains(id) {
                before.push((id, current.last()))
            } else {
                before
            },
            None => before,
        }
    }
}

/// The machine IDs under which peers are taken up.
pub open spec fn added_ids(current: Seq<Peer>, local: u64, known: Seq<u64>) -> Seq<u64> {
    additions(current, local, known).map_values(|entry: (u64, Peer)| entry.0)
}

/// The machine itself is never taken up, nor a peer that the table holds,
/// nor one peer twice; and every peer that is taken up was reported, under
/// the machine ID that its text stands for.
pub proof fn lemma_additions(current: Seq<Peer>, local: u64, known: Seq<u64>)
    ensures
        additions(current, local, known).len() <= current.len(),
        !added_ids(current, local, known).contains(local),
        forall|i: int|
            0 <= i < added_ids(current, local, known).len() ==> !known.contains(
                #[trigger] added_ids(current, local, known)[i],
            ),
        forall|i: int|
            0 <= i < added_ids(current, local, known).len() ==> reported(current).contains(
                #[trigger] added_ids(current, local, known)[i],
            ),
        forall|i: int, j: int|
            0 <= i < j < added_ids(current, local, known).len() ==> added_ids(
                current,
                local,
                known,
            )[i] != added_ids(current, local, known)[j],
        forall|i: int|
            0 <= i < additions(current, local, known).len() ==> peer_id(
                (#[trigger] additions(current, local, known)[i]).1,
            ) == Some(additions(current, local, known)[i].0),
    decreases current.len(),
{
    if current.len() > 0 {
        let before = current.drop_last();
        lemma_additions(before, local, known);
        let ids0 = added_ids(before, local, known);
        let ids = added_ids(current, local, known);
        let all = additions(current, local, known);
        assert forall|i: int| 0 <= i < ids.len() implies reported(current).contains(
            #[trigger] ids[i],
        ) by {
            if i < ids0.len() {
                assert(ids[i] == ids0[i]);
                let k = choose|k: int|
                    0 <= k < reported(before).len() && reported(before)[k] == ids0[i];
                assert(reported(current)[k] == ids0[i]);
            } else {
                assert(reported(current).last() == ids[i]);
            }
        }
        assert forall|i: int| 0 <= i < ids.len() implies !known.contains(#[trigger] ids[i]) by {
            if i < ids0.len() {
                assert(ids[i] == ids0[i]);
            }
        }
        assert forall|i: int, j: int| 0 <= i < j < ids.len() implies ids[i] != ids[j] by {
            if j < ids0.len() {
                assert(ids[i] == ids0[i] && ids[j] == ids0[j]);
            } else {
                assert(ids[i] == ids0[i]);
            }
        }
        assert(!ids.contains(local)) by {
            if ids.contains(local) {
                let k = choose|k: int| 0 <= k < ids.len() && ids[k] == local;
                if k < ids0.len() {
                    assert(ids0[k] == local);
                }
            }
        }
        assert forall|i: int| 0 <= i < all.len() implies peer_id((#[trigger] all[i]).1) == Some(
            all[i].0,
        ) by {
            if i < additions(before, local, known).len() {
                assert(all[i] == additions(before, local, known)[i]);
            }
        }
    }
}

/// Whether the table is to be gone through for peers to let go: a peer was
/// taken up, or fewer peers were reported, the machine itself not counted,
/// than the table then holds.
pub open spec fn prunes(reports: nat, known: nat, added: nat) -> bool {
    added > 0 || (if reports == 0 {
        0
    } else {
        reports - 1
    }) < known + added
}

/// What a report of discovery asks of the table.
#[derive(Debug)]
pub struct Resolution {
    /// The peers to take up, each under its machine ID and with no state yet.
    pub add: Vec<(MachineId, Peer)>,
    /// Whether to go through the table and let go every peer whose machine
    /// ID is not among `reported`.
    pub prune: bool,
    /// The machine IDs that were reported.
    pub reported: Vec<MachineId>,
}

/// Whether `id` is among `ids`.
pub fn contains(ids: &Vec<MachineId>, id: MachineId) -> (found: bool)
    ensures
        found == numbers(ids@).contains(id@),
{
    let mut i: usize = 0;
    while i < ids.len()
        invariant
            i <= ids.len(),
            forall|j: int| 0 <= j < i ==> (#[trigger] ids@[j])@ != id@,
        decreases ids.len() - i,
    {
        proof {
            ids@[i as int].lemma_equal_by_value(id);
        }
        if ids[i] == id {
            assert(numbers(ids@)[i as int] == id@);
            return true;
        }
        i += 1;
    }
    assert(!numbers(ids@).contains(id@)) by {
        if numbers(ids@).contains(id@) {
            let j = choose|j: int| 0 <= j < numbers(ids@).len() && numbers(ids@)[j] == id@;
            assert(ids@[j]@ == id@);
        }
    }
    false
}

/// Decide what a report of discovery asks of the table.
///
/// `current` is the report, `local` this machine, which is never taken up,
/// and `known` the machine IDs that the table holds.
pub fn resolve(current: &Vec<Peer>, local: MachineId, known: &Vec<MachineId>) -> (resolution:
    Resolution)
    ensures
        resolution.add@.len() == additions(current@, local@, numbers(known@)).len(),
        forall|i: int|
            0 <= i < resolution.add@.len() ==> (#[trigger] resolution.add@[i]).0@ == additions(
                current@,
                local@,
                numbers(known@),
            )[i].0 && resolution.add@[i].1 == additions(current@, local@, numbers(known@))[i].1,
        numbers(resolution.reported@) == reported(current@),
        resolution.prune == prunes(
            current@.len(),
            known@.len(),
            additions(current@, local@, numbers(known@)).len(),
        ),
{
    let mut add: Vec<(MachineId, Peer)> = Vec::new();
    let mut added: Vec<MachineId> = Vec::new();
    let mut ids: Vec<MachineId> = Vec::new();
    let ghost known_numbers = numbers(known@);
    let mut i: usize = 0;
    while i < current.len()
        invariant
            i <= current.len(),
            known_numbers == numbers(known@),
            add@.len() == additions(current@.subrange(0, i as int), local@, known_numbers).len(),
            add@.len() == added@.len(),
            add@.len() <= i,
            forall|k: int|
                0 <= k < add@.len() ==> (#[trigger] add@[k]).0@ == additions(
                    current@.subrange(0, i as int),
                    local@,
                    known_numbers,
                )[k].0 && add@[k].1 == additions(
                    current@.subrange(0, i as int),
                    local@,
                    known_numbers,
                )[k].1 && added@[k] == add@[k].0,
            numbers(ids@) == reported(current@.subrange(0, i as int)),
        decreases current.len() - i,
    {
        let ghost prefix = current@.subrange(0, i as int);
        let ghost next = current@.subrange(0, i + 1);
        let ghost before = additions(prefix, local@, known_numbers);
        assert(next.drop_last() =~= prefix);
        assert(next.last() == current@[i as int]);
        let peer = &current[i];
        match MachineId::parse(peer.node.id.as_str()) {
            Ok(id) => {
                ids.push(id);
                assert(numbers(ids@) =~= reported(next));
                let taken = contains(&added, id);
                proof {
                    let firsts = before.map_values(|entry: (u64, Peer)| entry.0);
                    assert forall|k: int| 0 <= k < added@.len() implies numbers(added@)[k]
                        == firsts[k] by {
                        assert(add@[k].0@ == before[k].0);
                    }
                    assert(numbers(added@) =~= firsts);
                }
                if id != local && !contains(known, id) && !taken {
                    proof {
                        id.lemma_equal_by_value(local);
                    }
                    add.push((id, peer.duplicate()));
                    added.push(id);
                } else {
                    proof {
                        id.lemma_equal_by_value(local);
                    }
                }
            },
            Err(_) => {
                assert(numbers(ids@) =~= reported(next));
            },
        }
        i += 1;
    }
    assert(current@.subrange(0, i as int) =~= current@);
    let prune = add.len() > 0 || current.len().saturating_sub(1) < known.len() + add.len();
    Resolution { add, prune, reported: ids }
}

} // verus!
