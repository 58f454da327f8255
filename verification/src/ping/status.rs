//! What was observed of a peer: one outcome per probe, a bounded history of
//! them, and the latency that the history amounts to.

use super::deque::{
    history_get, history_items, history_len, history_new, history_push_back, History,
    HISTORY_CAPACITY,
};
use super::time::{duration_nanos, nanos_duration, saturating_difference, Timestamp};
use std::time::Duration;
use vstd::prelude::*;

verus! {

/// The outcome of a probe: answered after some time, or given up after some time.
#[derive(PartialEq, Eq, PartialOrd, Ord, Copy, Clone, Debug)]
pub enum Status {
    Available(Duration),
    Unavailable(Duration),
}

impl Status {
    pub fn is_available(&self) -> (available: bool)
        ensures
            available == (*self is Available),
    {
        match self {
            Status::Available(_) => true,
            Status::Unavailable(_) => false,
        }
    }

    /// The latency of an answered probe.
    pub open spec fn spec_latency(self) -> Option<Duration> {
        match self {
            Status::Available(latency) => Some(latency),
            Status::Unavailable(_) => None,
        }
    }

    /// The latency of an answered probe.
    pub fn latency(&self) -> (latency: Option<Duration>)
        ensures
            latency == self.spec_latency(),
    {
        match self {
            Status::Available(latency) => Some(*latency),
            Status::Unavailable(_) => None,
        }
    }
}

/// One recorded outcome for a peer at a point in time.
#[derive(PartialEq, Eq, PartialOrd, Ord, Copy, Clone, Debug)]
pub struct Observation {
    pub time: Timestamp,
    pub status: Status,
}

impl Observation {
    pub fn new(time: Timestamp, status: Status) -> (observation: Observation)
        ensures
            observation == (Observation { time, status }),
    {
        Observation { time, status }
    }

    pub fn is_available(&self) -> (available: bool)
        ensures
            available == (self.status is Available),
    {
        self.status.is_available()
    }

    /// The latency of an answered probe.
    pub fn latency(&self) -> (latency: Option<Duration>)
        ensures
            latency == self.status.spec_latency(),
    {
        self.status.latency()
    }
}

/// A history after one more observation: the oldest one gives way where the
/// history is full.
pub open spec fn pushed(history: Seq<Observation>, latest: Observation) -> Seq<Observation> {
    if history.len() < HISTORY_CAPACITY {
        history.push(latest)
    } else {
        history.skip(1).push(latest)
    }
}

/// The time of the newest observation of an answered probe.
pub open spec fn last_available(history: Seq<Observation>) -> Option<Timestamp>
    decreases history.len(),
{
    if history.len() == 0 {
        None
    } else if history.last().status is Available {
        Some(history.last().time)
    } else {
        last_available(history.drop_last())
    }
}

/// The answered probes of a history, in its order: when, and how long it took.
pub open spec fn samples(history: Seq<Observation>) -> Seq<(Timestamp, Duration)>
    decreases history.len(),
{
    if history.len() == 0 {
        Seq::empty()
    } else {
        match history.last().status {
            Status::Available(latency) => samples(history.drop_last()).push(
                (history.last().time, latency),
            ),
            Status::Unavailable(_) => samples(history.drop_last()),
        }
    }
}

/// Whether sample `a` is at least sample `b`: later, or of the same time and
/// no shorter.
pub open spec fn sample_ge(a: (Timestamp, Duration), b: (Timestamp, Duration)) -> bool {
    a.0.0 > b.0.0 || (a.0.0 == b.0.0 && duration_nanos(a.1) >= duration_nanos(b.1))
}

/// The greatest sample: the latest one, among those of the same time the
/// longest, and among equals the last in the sequence.
pub open spec fn greatest(values: Seq<(Timestamp, Duration)>) -> Option<(Timestamp, Duration)>
    decreases values.len(),
{
    if values.len() == 0 {
        None
    } else {
        match greatest(values.drop_last()) {
            Some(best) => if sample_ge(values.last(), best) {
                Some(values.last())
            } else {
                Some(best)
            },
            None => Some(values.last()),
        }
    }
}

/// A latency estimate: the weighted average, and the latest sample with its time.
#[derive(PartialEq, Eq, PartialOrd, Ord, Copy, Clone, Debug)]
pub struct Latency {
    pub average: Duration,
    pub latest: Duration,
    pub time: Timestamp,
}

impl Latency {
    /// The estimate that the samples and their weighted average make.
    pub open spec fn computed(values: Seq<(Timestamp, Duration)>, average: Duration) -> Option<
        Latency,
    > {
        match greatest(values) {
            Some(best) => Some(Latency { average, latest: best.1, time: best.0 }),
            None => None,
        }
    }

    /// Put an estimate together from the samples and from their weighted
    /// average, which the caller has computed: none without a sample, else
    /// the average with the greatest sample as the latest.
    pub fn compute(values: &Vec<(Timestamp, Duration)>, average: Duration) -> (latency: Option<
        Latency,
    >)
        ensures
            latency == Latency::computed(values@, average),
    {
        let mut best: Option<(Timestamp, Duration)> = None;
        let mut i: usize = 0;
        while i < values.len()
            invariant
                i <= values.len(),
                best == greatest(values@.subrange(0, i as int)),
            decreases values.len() - i,
        {
            let value = values[i];
            assert(values@.subrange(0, i + 1).drop_last() =~= values@.subrange(0, i as int));
            best =
            match best {
                Some(current) => {
                    let later = value.0.into_raw() > current.0.into_raw();
                    let same = value.0.into_raw() == current.0.into_raw();
                    if later || (same && value.1.as_nanos() >= current.1.as_nanos()) {
                        Some(value)
                    } else {
                        Some(current)
                    }
                },
                None => Some(value),
            };
            i += 1;
        }
        assert(values@.subrange(0, i as int) =~= values@);
        match best {
            Some(best) => Some(Latency { average, latest: best.1, time: best.0 }),
            None => None,
        }
    }
}

/// An answered probe with what its weight in the average is made of.
#[derive(PartialEq, Eq, Copy, Clone, Debug)]
pub struct Weighted {
    /// The time from this observation to the newest one in the history.
    pub age: Duration,
    /// The time from the oldest observation in the history to the newest.
    pub span: Duration,
    /// When the reply came.
    pub time: Timestamp,
    /// How long the reply took.
    pub latency: Duration,
}

/// The sample `sample` of a history that reaches from `oldest` to `newest`,
/// with what its weight is made of.
pub open spec fn weighted(sample: (Timestamp, Duration), oldest: Timestamp, newest: Timestamp) -> Weighted {
    Weighted {
        age: nanos_duration(saturating_difference(newest.0, sample.0.0)),
        span: nanos_duration(saturating_difference(newest.0, oldest.0)),
        time: sample.0,
        latency: sample.1,
    }
}

/// The estimate that a history and the weighted average of its samples make.
pub open spec fn estimate(history: Seq<Observation>, average: Duration) -> Option<Latency> {
    if history.len() == 0 {
        None
    } else if history.len() == 1 {
        match history[0].status {
            Status::Available(latency) => Some(
                Latency { average: latency, latest: latency, time: history[0].time },
            ),
            Status::Unavailable(_) => None,
        }
    } else {
        Latency::computed(samples(history), average)
    }
}

/// A bounded history of observations, the oldest first. It never holds more
/// than [`HISTORY_CAPACITY`] of them: the oldest gives way to a new one.
#[derive(Debug)]
pub struct Observations {
    history: History,
}

impl View for Observations {
    type V = Seq<Observation>;

    closed spec fn view(&self) -> Seq<Observation> {
        history_items(self.history)
    }
}

impl Observations {
    /// Create a fixed-size buffer to record [observations][Observation].
    pub fn new() -> (observations: Observations)
        ensures
            observations@ == Seq::<Observation>::empty(),
    {
        Observations { history: history_new() }
    }

    /// The number of observations held.
    pub fn len(&self) -> (count: usize)
        ensures
            count == self@.len(),
            count <= HISTORY_CAPACITY,
    {
        history_len(&self.history)
    }

    /// The observation at `index`, the oldest being at 0.
    pub fn get(&self, index: usize) -> (observation: Option<Observation>)
        ensures
            observation == (if index < self@.len() {
                Some(self@[index as int])
            } else {
                None
            }),
    {
        history_get(&self.history, index)
    }

    /// Record an observation. Where the history is full, the oldest
    /// observation gives way.
    pub fn add(&mut self, latest: Observation)
        ensures
            final(self)@ == pushed(old(self)@, latest),
            final(self)@.len() <= HISTORY_CAPACITY,
            final(self)@.last() == latest,
    {
        let _ = history_push_back(&mut self.history, latest);
    }

    /// The time of the newest observation of an answered probe.
    pub fn reachable(&self) -> (time: Option<Timestamp>)
        ensures
            time == last_available(self@),
    {
        let mut i: usize = self.len();
        assert(self@.subrange(0, i as int) =~= self@);
        while i > 0
            invariant
                i <= self@.len(),
                last_available(self@) == last_available(self@.subrange(0, i as int)),
            decreases i,
        {
            i -= 1;
            assert(self@.subrange(0, i + 1).drop_last() =~= self@.subrange(0, i as int));
            match self.get(i) {
                Some(observation) => {
                    if observation.is_available() {
                        return Some(observation.time);
                    }
                },
                None => {},
            }
        }
        None
    }

    /// The newest observation.
    pub fn latest(&self) -> (observation: Option<Observation>)
        ensures
            observation == (if self@.len() == 0 {
                None
            } else {
                Some(self@.last())
            }),
    {
        let count = self.len();
        if count == 0 {
            None
        } else {
            self.get(count - 1)
        }
    }

    /// Whether the history holds as many observations as it can.
    pub fn is_full(&self) -> (full: bool)
        ensures
            full == (self@.len() == HISTORY_CAPACITY),
            self@.len() <= HISTORY_CAPACITY,
    {
        self.len() == HISTORY_CAPACITY
    }

    /// The answered probes, in the order of the history.
    pub fn latency_observations(&self) -> (values: Vec<(Timestamp, Duration)>)
        ensures
            values@ == samples(self@),
    {
        let mut values: Vec<(Timestamp, Duration)> = Vec::new();
        let count = self.len();
        let mut i: usize = 0;
        while i < count
            invariant
                i <= count,
                count == self@.len(),
                values@ == samples(self@.subrange(0, i as int)),
            decreases count - i,
        {
            assert(self@.subrange(0, i + 1).drop_last() =~= self@.subrange(0, i as int));
            match self.get(i) {
                Some(observation) => {
                    match observation.latency() {
                        Some(latency) => {
                            values.push((observation.time, latency));
                        },
                        None => {},
                    }
                },
                None => {},
            }
            i += 1;
        }
        assert(self@.subrange(0, i as int) =~= self@);
        values
    }

    /// The answered probes, each with what its weight is made of: its age,
    /// counted back from the newest observation of any kind, and the span
    /// from the oldest observation of any kind to the newest. The weight of
    /// a sample is `exp(-age / span)`.
    pub fn weighted_latency_observations(&self) -> (values: Vec<Weighted>)
        ensures
            values@.len() == samples(self@).len(),
            forall|i: int|
                0 <= i < values@.len() ==> #[trigger] values@[i] == weighted(
                    samples(self@)[i],
                    self@.first().time,
                    self@.last().time,
                ),
    {
        let mut values: Vec<Weighted> = Vec::new();
        let count = self.len();
        if count == 0 {
            return values;
        }
        let oldest = match self.get(0) {
            Some(observation) => observation.time,
            None => Timestamp(0),
        };
        let newest = match self.get(count - 1) {
            Some(observation) => observation.time,
            None => Timestamp(0),
        };
        let span = newest - oldest;
        let mut i: usize = 0;
        while i < count
            invariant
                i <= count,
                count == self@.len(),
                count > 0,
                oldest == self@.first().time,
                newest == self@.last().time,
                span == nanos_duration(saturating_difference(newest.0, oldest.0)),
                values@.len() == samples(self@.subrange(0, i as int)).len(),
                forall|k: int|
                    0 <= k < values@.len() ==> #[trigger] values@[k] == weighted(
                        samples(self@.subrange(0, i as int))[k],
                        oldest,
                        newest,
                    ),
            decreases count - i,
        {
            assert(self@.subrange(0, i + 1).drop_last() =~= self@.subrange(0, i as int));
            match self.get(i) {
                Some(observation) => {
                    match observation.latency() {
                        Some(latency) => {
                            let age = newest - observation.time;
                            values.push(Weighted { age, span, time: observation.time, latency });
                        },
                        None => {},
                    }
                },
                None => {},
            }
            i += 1;
        }
        assert(self@.subrange(0, i as int) =~= self@);
        values
    }

    /// The latency estimate of the history. `average` is the weighted average
    /// of [`Observations::weighted_latency_observations`], which the caller
    /// has computed; it counts only where the history holds two observations
    /// or more, of which at least one is of an answered probe.
    ///
    /// An empty history gives no estimate. A history of one observation gives
    /// the latency of that one as the latest and as the average, if the probe
    /// was answered. A longer one gives `average`, with the greatest sample as
    /// the latest.
    pub fn latency(&self, average: Duration) -> (latency: Option<Latency>)
        ensures
            latency == estimate(self@, average),
    {
        let count = self.len();
        if count == 0 {
            None
        } else if count == 1 {
            match self.get(0) {
                Some(observation) => match observation.latency() {
                    Some(latency) => Some(
                        Latency { average: latency, latest: latency, time: observation.time },
                    ),
                    None => None,
                },
                None => None,
            }
        } else {
            let values = self.latency_observations();
            Latency::compute(&values, average)
        }
    }
}

/// A history never outgrows its capacity: one more observation joins a
/// history that has room, and at capacity takes the place of exactly the
/// oldest, every other observation moving up by one.
pub proof fn lemma_pushed(history: Seq<Observation>, latest: Observation)
    requires
        history.len() <= HISTORY_CAPACITY,
    ensures
        pushed(history, latest).len() <= HISTORY_CAPACITY,
        pushed(history, latest).last() == latest,
        history.len() < HISTORY_CAPACITY ==> pushed(history, latest).len() == history.len() + 1
            && forall|i: int|
            0 <= i < history.len() ==> pushed(history, latest)[i] == history[i],
        history.len() == HISTORY_CAPACITY ==> pushed(history, latest).len() == HISTORY_CAPACITY
            && forall|i: int|
            0 <= i < history.len() - 1 ==> pushed(history, latest)[i] == history[i + 1],
{
}

/// An empty history gives no estimate, whatever the average. A history of
/// one answered probe gives that probe's latency as the latest and as the
/// average, whatever average is handed in.
pub proof fn lemma_estimate_of_few(history: Seq<Observation>, average: Duration)
    ensures
        history.len() == 0 ==> estimate(history, average) is None,
        history.len() == 1 && history[0].status is Available ==> {
            &&& estimate(history, average) is Some
            &&& estimate(history, average).unwrap().average == estimate(
                history,
                average,
            ).unwrap().latest
            &&& Some(estimate(history, average).unwrap().latest)
                == history[0].status.spec_latency()
            &&& estimate(history, average).unwrap().time == history[0].time
        },
        history.len() == 1 && history[0].status is Unavailable ==> estimate(history, average)
            is None,
{
}

/// Every sample is an answered probe of the history, and the newest answered
/// probe is the last of the samples.
pub proof fn lemma_samples(history: Seq<Observation>)
    ensures
        samples(history).len() <= history.len(),
        forall|i: int|
            0 <= i < samples(history).len() ==> exists|j: int|
                0 <= j < history.len() && history[j].time == (#[trigger] samples(history)[i]).0
                    && history[j].status == Status::Available(samples(history)[i].1),
        last_available(history) is Some <==> samples(history).len() > 0,
        samples(history).len() > 0 ==> last_available(history) == Some(
            samples(history).last().0,
        ),
    decreases history.len(),
{
    if history.len() > 0 {
        let before = history.drop_last();
        lemma_samples(before);
        assert forall|i: int| 0 <= i < samples(history).len() implies exists|j: int|
            0 <= j < history.len() && history[j].time == (#[trigger] samples(history)[i]).0
                && history[j].status == Status::Available(samples(history)[i].1) by {
            if i < samples(before).len() {
                let j = choose|j: int|
                    0 <= j < before.len() && before[j].time == samples(before)[i].0
                        && before[j].status == Status::Available(samples(before)[i].1);
                assert(history[j] == before[j]);
            } else {
                assert(history[history.len() - 1] == history.last());
            }
        }
    }
}

/// The estimate of a history of two observations or more exists exactly
/// where one of them is of an answered probe. Its latest sample is one of
/// the samples, and no sample is greater.
pub proof fn lemma_greatest(values: Seq<(Timestamp, Duration)>)
    ensures
        greatest(values) is Some <==> values.len() > 0,
        values.len() > 0 ==> values.contains(greatest(values).unwrap()),
        forall|i: int|
            0 <= i < values.len() ==> sample_ge(greatest(values).unwrap(), #[trigger] values[i]),
    decreases values.len(),
{
    if values.len() > 0 {
        let before = values.drop_last();
        lemma_greatest(before);
        let best = greatest(values).unwrap();
        if before.len() > 0 {
            let earlier = greatest(before).unwrap();
            let k = choose|k: int| 0 <= k < before.len() && before[k] == earlier;
            assert(values[k] == earlier);
        }
        assert(values[values.len() - 1] == values.last());
        assert forall|i: int| 0 <= i < values.len() implies sample_ge(
            best,
            #[trigger] values[i],
        ) by {
            if i < before.len() {
                assert(values[i] == before[i]);
            }
        }
    }
}

} // verus!
