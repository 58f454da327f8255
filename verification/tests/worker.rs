use std::time::Duration;

use bytes::{Bytes, BytesMut};
use flytrap::machine::MachineId;
use flytrap::ping::deque::OUTSTANDING_CAPACITY;
use flytrap::ping::message::{Contents, Message, Reply, Request};
use flytrap::ping::monitor::{Config, MonitoredPeer};
use flytrap::region::{Location, Region};
use flytrap::resolver::Peer;
use flytrap::ping::seq::Sequence;
use flytrap::ping::status::{Observation, Status};
use flytrap::ping::time::Timestamp;
use flytrap::ping::worker::{
    accept, contains, probe, resolve, Action, Event, Missing, PingError, Rejected, Worker,
};

const T: Timestamp = Timestamp(123811200000000000); // 2023-12-04 00:00:00

fn a() -> MachineId {
    MachineId::new("17811309c4e0d8")
}

fn b() -> MachineId {
    MachineId::new("6e82de14c35038")
}

fn c() -> MachineId {
    MachineId::new("4d89699c030518")
}

fn peer(id: &str) -> Peer {
    Peer::new(
        Location::Region(Region::Amsterdam),
        id.to_string(),
        0xfdaa_0000_0018_0a7b_0d6b_0000_000a_0002,
    )
}

fn ms(millis: u64) -> Duration {
    Duration::from_millis(millis)
}

fn datagram(message: &Message) -> Bytes {
    let mut data = BytesMut::new();
    let len = message.write(&mut data);
    Bytes::copy_from_slice(&data[..len])
}

#[test]
fn accept_takes_a_message_for_this_machine() {
    let message = Message::new(a(), b(), Sequence::new(1), Request::new(T, None).into());
    assert_eq!(accept(&mut datagram(&message), b()), Ok(message));
}

#[test]
fn accept_drops_a_message_for_another_machine() {
    let message = Message::new(a(), b(), Sequence::new(1), Request::new(T, None).into());
    assert_eq!(accept(&mut datagram(&message), c()), Err(Rejected::Foreign(b())));
}

#[test]
fn accept_drops_what_is_no_message() {
    assert_eq!(accept(&mut Bytes::from_static(b"hello"), b()), Err(Rejected::Invalid));
    assert_eq!(accept(&mut Bytes::new(), b()), Err(Rejected::Invalid));
}

#[test]
fn answer_echoes_the_probe() {
    let mut worker = Worker::new(b(), Config::default());
    let request = Request::new(T, Some(T - ms(500)));
    let reply = worker.answer(a(), Sequence::new(0x1001), request, T + ms(3), Some(T - ms(125)));
    assert_eq!(reply.from, b());
    assert_eq!(reply.to, a());
    assert_eq!(
        reply.contents,
        Contents::Reply(Reply::new(Sequence::new(0x1001), T, T + ms(3), Some(T - ms(125))))
    );
    let next = worker.answer(a(), Sequence::new(0x1002), request, T + ms(4), None);
    assert_eq!(next.seq.value(), reply.seq.value() + 1);
}

#[test]
fn probe_joins_the_outstanding_ones() {
    let mut monitored = MonitoredPeer::new(peer("6e82de14c35038"));
    monitored.touch(T - ms(10));
    let message = probe(&mut monitored, a(), b(), Sequence::new(5), T, ms(2000));
    assert_eq!(
        message,
        Ok(Message::new(a(), b(), Sequence::new(5), Request::new(T, Some(T - ms(10))).into()))
    );
    assert_eq!(monitored.outstanding_len(), 1);
    assert_eq!(monitored.outstanding_get(0).unwrap().seq, Sequence::new(5));
    assert_eq!(monitored.outstanding_get(0).unwrap().time, T);
}

#[test]
fn probe_of_a_silent_peer_fails_at_capacity() {
    let mut monitored = MonitoredPeer::new(peer("6e82de14c35038"));
    for i in 0..OUTSTANDING_CAPACITY as u32 {
        let message = probe(&mut monitored, a(), b(), Sequence::new(i + 1), T + ms(i as u64), ms(2000));
        assert!(message.is_ok());
    }
    let message = probe(&mut monitored, a(), b(), Sequence::new(9), T + ms(10), ms(2000));
    assert_eq!(message, Err(PingError::Capacity(b())));
    assert_eq!(monitored.outstanding_len(), OUTSTANDING_CAPACITY);
    assert_eq!(monitored.observations.len(), 0);
}

#[test]
fn probe_gives_up_stale_probes_first() {
    let mut monitored = MonitoredPeer::new(peer("6e82de14c35038"));
    for i in 0..OUTSTANDING_CAPACITY as u32 {
        probe(&mut monitored, a(), b(), Sequence::new(i + 1), T, ms(2000)).unwrap();
    }
    let now = T + ms(2001);
    let message = probe(&mut monitored, a(), b(), Sequence::new(9), now, ms(2000));
    assert!(message.is_ok());
    assert_eq!(monitored.outstanding_len(), 1);
    assert_eq!(monitored.observations.len(), OUTSTANDING_CAPACITY);
    assert_eq!(
        monitored.observations.latest(),
        Some(Observation::new(now, Status::Unavailable(ms(2001))))
    );
}

#[test]
fn worker_ping_uses_its_own_timeout_and_counter() {
    let mut worker = Worker::new(a(), Config::default());
    let mut monitored = MonitoredPeer::new(peer("6e82de14c35038"));
    let first = worker.ping(&mut monitored, b(), T).unwrap();
    let second = worker.ping(&mut monitored, b(), T + ms(125)).unwrap();
    assert_eq!(first.from, a());
    assert_eq!(first.to, b());
    assert_eq!(first.contents, Contents::Request(Request::new(T, None)));
    assert_eq!(second.seq.value(), first.seq.value() + 1);
    // 2 s later the first probe is given up
    worker.ping(&mut monitored, b(), T + ms(2001)).unwrap();
    assert_eq!(monitored.outstanding_len(), 2);
    assert_eq!(monitored.observations.len(), 1);
}

#[test]
fn worker_cutoff() {
    let worker = Worker::new(a(), Config::default());
    assert_eq!(worker.cutoff(T), T - Duration::from_secs(5));
    assert_eq!(worker.cutoff(Timestamp(5)), Timestamp(0));
}

#[test]
fn step_follows_the_events() {
    let mut worker = Worker::new(a(), Config::default());
    assert_eq!(worker.step(Event::Datagram), Action::Receive);
    assert_eq!(worker.step(Event::Shutdown), Action::Stop);
    // nobody waits yet
    assert_eq!(worker.step(Event::PingTick), Action::Refill);
    assert_eq!(worker.refill(vec![b()]), Some(b()));
    assert_eq!(worker.step(Event::PingTick), Action::Refill);
    assert_eq!(worker.refill(vec![b(), c()]).is_some(), true);
    let next = worker.step(Event::PingTick);
    assert!(next == Action::Ping(b()) || next == Action::Ping(c()));
}

#[test]
fn step_skips_a_search_while_one_runs() {
    let mut worker = Worker::new(a(), Config::default());
    assert!(!worker.resolving);
    assert_eq!(worker.step(Event::ResolveTick { finished: false }), Action::Resolve);
    assert!(worker.resolving);
    assert_eq!(worker.step(Event::ResolveTick { finished: false }), Action::Skip);
    assert_eq!(worker.step(Event::ResolveTick { finished: true }), Action::Resolve);
    assert_eq!(worker.step(Event::ResolveTick { finished: false }), Action::Skip);
}

#[test]
fn queue_hands_out_everyone_once() {
    let mut worker = Worker::new(a(), Config::default());
    assert_eq!(worker.queue(), None);
    assert_eq!(worker.refill(vec![]), None);

    let ids: Vec<MachineId> = (1..=20u64).map(|i| MachineId::from_raw(i).unwrap()).collect();
    let mut drawn = vec![worker.refill(ids.clone()).unwrap()];
    while let Some(id) = worker.queue() {
        drawn.push(id);
    }
    assert_eq!(drawn.len(), 20);
    drawn.sort();
    assert_eq!(drawn, ids);
}

#[test]
fn refill_keeps_those_that_wait_in_front() {
    let mut worker = Worker::new(a(), Config::default());
    worker.waiting.push_back(b());
    assert_eq!(worker.refill(vec![c()]), Some(b()));
    assert_eq!(worker.queue(), Some(c()));
    assert_eq!(worker.queue(), None);
}

#[test]
fn contains_finds_an_id() {
    assert!(contains(&vec![a(), b()], b()));
    assert!(!contains(&vec![a(), b()], c()));
    assert!(!contains(&vec![], c()));
}

#[test]
fn resolve_takes_up_new_peers() {
    let report = vec![peer("17811309c4e0d8"), peer("6e82de14c35038"), peer("4d89699c030518")];
    let resolution = resolve(&report, a(), &vec![]);
    assert_eq!(
        resolution.add,
        vec![(b(), peer("6e82de14c35038")), (c(), peer("4d89699c030518"))]
    );
    assert!(resolution.prune);
    assert_eq!(resolution.reported, vec![a(), b(), c()]);
}

#[test]
fn resolve_leaves_a_steady_table_alone() {
    let report = vec![peer("17811309c4e0d8"), peer("6e82de14c35038"), peer("4d89699c030518")];
    let resolution = resolve(&report, a(), &vec![c(), b()]);
    assert_eq!(resolution.add, vec![]);
    assert!(!resolution.prune);
}

#[test]
fn resolve_prunes_when_the_report_shrank() {
    let report = vec![peer("17811309c4e0d8"), peer("6e82de14c35038")];
    let resolution = resolve(&report, a(), &vec![c(), b()]);
    assert_eq!(resolution.add, vec![]);
    assert!(resolution.prune);
    assert_eq!(resolution.reported, vec![a(), b()]);
    assert!(contains(&resolution.reported, b()));
    assert!(!contains(&resolution.reported, c()));
}

#[test]
fn resolve_of_an_empty_report() {
    let resolution = resolve(&vec![], a(), &vec![b()]);
    assert_eq!(resolution.add, vec![]);
    assert!(resolution.prune);
    assert_eq!(resolution.reported, vec![]);

    let resolution = resolve(&vec![], a(), &vec![]);
    assert!(!resolution.prune);
}

#[test]
fn resolve_skips_what_is_no_machine_and_takes_each_peer_once() {
    let report = vec![
        peer("not a machine"),
        peer("6e82de14c35038"),
        peer("0"),
        peer("6E82DE14C35038"),
        peer("4d89699c030518"),
    ];
    let resolution = resolve(&report, a(), &vec![c()]);
    assert_eq!(resolution.add, vec![(b(), peer("6e82de14c35038"))]);
    assert!(resolution.prune);
    assert_eq!(resolution.reported, vec![b(), b(), c()]);
}

#[test]
fn pass_names_why_and_uses_up_a_sequence_number() {
    let mut worker = Worker::new(a(), Config::default());
    let mut monitored = MonitoredPeer::new(peer("6e82de14c35038"));
    let first = worker.ping(&mut monitored, b(), T).unwrap();
    assert_eq!(worker.pass(c(), Missing::Absent), PingError::Lookup(c()));
    assert_eq!(worker.pass(c(), Missing::Locked), PingError::Contention(c()));
    let next = worker.ping(&mut monitored, b(), T).unwrap();
    assert_eq!(next.seq.value(), first.seq.value() + 3);
}

#[test]
fn a_probe_and_its_reply_measure_the_round_trip() {
    let mut worker_a = Worker::new(a(), Config::default());
    let mut worker_b = Worker::new(b(), Config::default());
    // what A knows of B, and B of A
    let mut b_at_a = MonitoredPeer::new(peer("6e82de14c35038"));
    let mut a_at_b = MonitoredPeer::new(peer("17811309c4e0d8"));

    // A probes B at T
    let ping = worker_a.ping(&mut b_at_a, b(), T).unwrap();
    let mut wire = datagram(&ping);

    // B hears it 80 ms later and answers
    let heard = accept(&mut wire, b()).unwrap();
    assert_eq!(heard, ping);
    let pong = worker_b.receive(&heard, &mut a_at_b, T + ms(80)).unwrap();
    assert_eq!(a_at_b.seen, Some(T + ms(80)));
    assert_eq!(a_at_b.outstanding_len(), 0);
    assert_eq!(a_at_b.observations.len(), 0);
    assert_eq!(
        pong.contents,
        Contents::Reply(Reply::new(ping.seq, T, T + ms(80), None))
    );
    let mut wire = datagram(&pong);

    // A hears the reply 200 ms after it sent the probe
    let heard = accept(&mut wire, a()).unwrap();
    assert_eq!(worker_a.receive(&heard, &mut b_at_a, T + ms(200)), None);

    assert_eq!(b_at_a.seen, Some(T + ms(200)));
    assert_eq!(b_at_a.outstanding_len(), 0);
    assert_eq!(
        b_at_a.observations.latest(),
        Some(Observation::new(T + ms(200), Status::Available(ms(200))))
    );
    assert_eq!(b_at_a.observations.reachable(), Some(T + ms(200)));
}

#[test]
fn a_stranger_is_answered_and_its_reply_dropped() {
    let mut worker = Worker::new(b(), Config::default());
    let ping = Message::new(a(), b(), Sequence::new(7), Request::new(T, None).into());
    let pong = worker.receive_unknown(&ping, T + ms(1)).unwrap();
    assert_eq!(pong.from, b());
    assert_eq!(pong.to, a());
    assert_eq!(pong.contents, Contents::Reply(Reply::new(Sequence::new(7), T, T + ms(1), None)));

    let reply = Message::new(
        a(),
        b(),
        Sequence::new(8),
        Reply::new(Sequence::new(7), T, T, None).into(),
    );
    assert_eq!(worker.receive_unknown(&reply, T + ms(2)), None);
}

#[test]
fn a_second_probe_tells_when_the_peer_was_heard_of() {
    let mut worker = Worker::new(b(), Config::default());
    let mut a_at_b = MonitoredPeer::new(peer("17811309c4e0d8"));
    let ping = Message::new(a(), b(), Sequence::new(7), Request::new(T, None).into());
    worker.receive(&ping, &mut a_at_b, T + ms(1)).unwrap();
    let pong = worker.receive(&ping, &mut a_at_b, T + ms(126)).unwrap();
    assert_eq!(
        pong.contents,
        Contents::Reply(Reply::new(Sequence::new(7), T, T + ms(126), Some(T + ms(1))))
    );
}
