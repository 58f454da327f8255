use std::time::Duration;

use flytrap::ping::deque::{HISTORY_CAPACITY, OUTSTANDING_CAPACITY};
use flytrap::ping::message::Reply;
use flytrap::ping::monitor::{Capacity, Config, MonitoredPeer, Sent};
use flytrap::region::{Location, Region};
use flytrap::resolver::Peer;
use flytrap::ping::seq::Sequence;
use flytrap::ping::status::{Latency, Observation, Status};
use flytrap::ping::time::Timestamp;

const T: Timestamp = Timestamp(123811200000000000); // 2023-12-04 00:00:00

fn peer() -> MonitoredPeer {
    MonitoredPeer::new(Peer::new(
        Location::Region(Region::Singapore),
        "6e82de14c35038".to_string(),
        0xfdaa_0000_0018_0a7b_0d6b_0000_000a_0002,
    ))
}

fn outstanding(peer: &MonitoredPeer) -> Vec<Sent> {
    (0..peer.outstanding_len()).map(|i| peer.outstanding_get(i).unwrap()).collect()
}

fn observations(peer: &MonitoredPeer) -> Vec<Observation> {
    (0..peer.observations.len()).map(|i| peer.observations.get(i).unwrap()).collect()
}

fn sent(seq: u32, time: Timestamp) -> Sent {
    Sent { seq: Sequence::new(seq), time }
}

fn reply(to: u32) -> Reply {
    Reply::new(Sequence::new(to), T, T, None)
}

fn ms(millis: u64) -> Duration {
    Duration::from_millis(millis)
}

#[test]
fn config_defaults() {
    let config = Config::default();
    assert_eq!(config.resolve_interval, Duration::from_secs(2));
    assert_eq!(config.ping_interval, Duration::from_millis(125));
    assert_eq!(config.ping_timeout, Duration::from_secs(2));
    assert_eq!(config.idle_timeout, Duration::from_secs(5));
    assert_eq!(config.port, 3598);
    assert_eq!(Config::DEFAULT_PORT, 3598);
}

#[test]
fn new_peer_knows_nothing() {
    let peer = peer();
    assert_eq!(peer.seen, None);
    assert_eq!(peer.outstanding_len(), 0);
    assert_eq!(peer.observations.len(), 0);
    assert_eq!(peer.peer.node.id, "6e82de14c35038");
}

#[test]
fn request_and_reply_give_the_round_trip_time() {
    // A probes B at T; B's reply comes back to A 200 ms later
    let mut b = peer();
    assert_eq!(b.add(Sequence::new(0x1001), T), Ok(()));

    let pong = Reply::new(Sequence::new(0x1001), T, T + ms(150), None);
    let now = T + ms(200);
    b.receive(pong, now);

    assert_eq!(b.seen, Some(now));
    assert_eq!(outstanding(&b), vec![]);
    assert_eq!(observations(&b), vec![Observation::new(now, Status::Available(ms(200)))]);
    assert_eq!(
        b.observations.latency(Duration::ZERO),
        Some(Latency { average: ms(200), latest: ms(200), time: now })
    );
}

#[test]
fn reply_to_an_unknown_probe_changes_no_history() {
    let mut peer = peer();
    peer.add(Sequence::new(1), T).unwrap();
    peer.add(Sequence::new(2), T + ms(1)).unwrap();
    peer.receive(reply(1), T + ms(10));
    let before = observations(&peer);
    let waiting = outstanding(&peer);

    peer.receive(reply(77), T + ms(20));

    assert_eq!(observations(&peer), before);
    assert_eq!(outstanding(&peer), waiting);
    // the peer was heard of all the same
    assert_eq!(peer.seen, Some(T + ms(20)));
}

#[test]
fn reply_is_matched_once() {
    let mut peer = peer();
    peer.add(Sequence::new(1), T).unwrap();
    peer.receive(reply(1), T + ms(10));
    peer.receive(reply(1), T + ms(20));
    assert_eq!(observations(&peer), vec![Observation::new(T + ms(10), Status::Available(ms(10)))]);
}

#[test]
fn answered_probe_gives_its_place_to_the_last() {
    let mut peer = peer();
    for i in 1..=4 {
        peer.add(Sequence::new(i), T + ms(i as u64)).unwrap();
    }
    peer.receive(reply(2), T + ms(10));
    assert_eq!(
        outstanding(&peer),
        vec![sent(1, T + ms(1)), sent(4, T + ms(4)), sent(3, T + ms(3))]
    );
    peer.receive(reply(3), T + ms(11));
    assert_eq!(outstanding(&peer), vec![sent(1, T + ms(1)), sent(4, T + ms(4))]);
    assert_eq!(
        observations(&peer),
        vec![
            Observation::new(T + ms(10), Status::Available(ms(8))),
            Observation::new(T + ms(11), Status::Available(ms(8))),
        ]
    );
}

#[test]
fn the_first_of_two_probes_with_one_number_is_answered() {
    let mut peer = peer();
    peer.add(Sequence::new(9), T).unwrap();
    peer.add(Sequence::new(5), T + ms(1)).unwrap();
    peer.add(Sequence::new(9), T + ms(2)).unwrap();
    peer.receive(reply(9), T + ms(10));
    assert_eq!(outstanding(&peer), vec![sent(9, T + ms(2)), sent(5, T + ms(1))]);
    assert_eq!(observations(&peer), vec![Observation::new(T + ms(10), Status::Available(ms(10)))]);
}

#[test]
fn a_reply_from_before_its_probe_has_no_latency() {
    let mut peer = peer();
    peer.add(Sequence::new(1), T + ms(5)).unwrap();
    peer.receive(reply(1), T);
    assert_eq!(observations(&peer), vec![Observation::new(T, Status::Available(Duration::ZERO))]);
}

#[test]
fn peer_at_capacity_reports_it() {
    let mut peer = peer();
    for i in 0..OUTSTANDING_CAPACITY as u32 {
        assert_eq!(peer.add(Sequence::new(i + 1), T), Ok(()));
    }
    let waiting = outstanding(&peer);
    assert_eq!(waiting.len(), OUTSTANDING_CAPACITY);

    assert_eq!(
        peer.add(Sequence::new(100), T + ms(1)),
        Err(Capacity { rejected: sent(100, T + ms(1)) })
    );
    assert_eq!(outstanding(&peer), waiting);
    assert_eq!(peer.outstanding_get(OUTSTANDING_CAPACITY), None);
}

#[test]
fn touch_returns_when_the_peer_was_seen_before() {
    let mut peer = peer();
    assert_eq!(peer.touch(T), None);
    assert_eq!(peer.touch(T + ms(5)), Some(T));
    assert_eq!(peer.seen, Some(T + ms(5)));
}

#[test]
fn purge_stale_gives_up_old_probes() {
    let mut peer = peer();
    peer.add(Sequence::new(1), T).unwrap();
    peer.add(Sequence::new(2), T + ms(1500)).unwrap();
    peer.add(Sequence::new(3), T + ms(500)).unwrap();
    peer.add(Sequence::new(4), T + ms(3000)).unwrap();

    let now = T + ms(3000);
    let timeout = ms(2000);
    peer.purge_stale(now, timeout);

    assert_eq!(outstanding(&peer), vec![sent(2, T + ms(1500)), sent(4, T + ms(3000))]);
    assert_eq!(
        observations(&peer),
        vec![
            Observation::new(now, Status::Unavailable(ms(3000))),
            Observation::new(now, Status::Unavailable(ms(2500))),
        ]
    );
    for observation in observations(&peer) {
        match observation.status {
            Status::Unavailable(elapsed) => assert!(elapsed >= timeout),
            Status::Available(_) => panic!("a stale probe was counted as answered"),
        }
    }
    assert_eq!(peer.seen, None);
}

#[test]
fn purge_stale_keeps_a_probe_at_the_cutoff() {
    let mut peer = peer();
    peer.add(Sequence::new(1), T).unwrap();
    peer.purge_stale(T + ms(2000), ms(2000));
    assert_eq!(outstanding(&peer), vec![sent(1, T)]);
    assert_eq!(observations(&peer), vec![]);

    peer.purge_stale(T + ms(2000) + Duration::from_nanos(1), ms(2000));
    assert_eq!(outstanding(&peer), vec![]);
    assert_eq!(
        observations(&peer),
        vec![Observation::new(
            T + ms(2000) + Duration::from_nanos(1),
            Status::Unavailable(ms(2000) + Duration::from_nanos(1))
        )]
    );
}

#[test]
fn purge_stale_with_a_timeout_beyond_the_epoch_gives_nothing_up() {
    let mut peer = peer();
    peer.add(Sequence::new(1), Timestamp(0)).unwrap();
    peer.purge_stale(Timestamp(1_000), Duration::from_secs(1));
    assert_eq!(outstanding(&peer), vec![sent(1, Timestamp(0))]);
    peer.purge_stale(Timestamp(1_000), Duration::MAX);
    assert_eq!(outstanding(&peer), vec![sent(1, Timestamp(0))]);
}

#[test]
fn status_of_a_peer() {
    let mut peer = peer();
    let status = peer.status(T, Duration::ZERO);
    assert!(!status.available);
    assert_eq!(status.last_seen, None);
    assert_eq!(status.last_replied, None);
    assert_eq!(status.latency, None);
    assert_eq!(status.peer, peer.peer);

    peer.add(Sequence::new(1), T).unwrap();
    peer.receive(reply(1), T + ms(30));
    peer.touch(T + ms(100));

    let status = peer.status(T + ms(100), Duration::ZERO);
    assert!(status.available);
    assert_eq!(status.last_seen, Some(T + ms(100)));
    assert_eq!(status.last_replied, Some(T + ms(30)));
    assert_eq!(
        status.latency,
        Some(Latency { average: ms(30), latest: ms(30), time: T + ms(30) })
    );

    let status = peer.status(T + ms(101), Duration::ZERO);
    assert!(!status.available);
}

#[test]
fn eligible_until_known_to_be_gone() {
    let mut peer = peer();
    // nothing is known yet
    assert!(peer.is_eligible(T));
    for i in 0..HISTORY_CAPACITY as u64 {
        peer.observations.add(Observation::new(T + ms(i), Status::Unavailable(ms(2000))));
    }
    // a full history of failures, and never seen
    assert!(!peer.is_eligible(T));
    // seen lately
    peer.touch(T + ms(50));
    assert!(peer.is_eligible(T + ms(50)));
    assert!(!peer.is_eligible(T + ms(51)));
    // an answer in the history
    peer.observations.add(Observation::new(T + ms(60), Status::Available(ms(3))));
    assert!(peer.is_eligible(T + ms(1000)));
}
