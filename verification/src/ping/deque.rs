//! The two bounded deques of a peer, kept in `arraydeque::ArrayDeque`: the
//! history of observations, which drops its oldest item to take a new one,
//! and the probes that await a reply, which takes no more once it is full.
//! Nothing here is proved: each contract restates what the crate does.

use super::monitor::Sent;
use super::status::Observation;
use arraydeque::{ArrayDeque, CapacityError, Saturating, Wrapping};
use vstd::prelude::*;

verus! {

/// The number of observations that a history holds.
pub const HISTORY_CAPACITY: usize = 16;

/// The number of probes that may await a reply at once.
pub const OUTSTANDING_CAPACITY: usize = 4;

/// `arraydeque::CapacityError`: the error of a push to a full deque. It is
/// only told apart from success.
#[verifier::external_type_specification]
#[verifier::external_body]
#[verifier::reject_recursive_types(T)]
pub struct ExCapacityError<T>(CapacityError<T>);

/// A wrapping `arraydeque::ArrayDeque` of up to [`HISTORY_CAPACITY`]
/// observations. Nothing is known of what is inside but what
/// [`history_items`] names.
#[verifier::external_body]
#[derive(Debug)]
pub struct History {
    items: ArrayDeque<Observation, HISTORY_CAPACITY, Wrapping>,
}

/// A saturating `arraydeque::ArrayDeque` of up to [`OUTSTANDING_CAPACITY`]
/// probes. Nothing is known of what is inside but what
/// [`outstanding_items`] names.
#[verifier::external_body]
#[derive(Debug)]
pub struct Outstanding {
    items: ArrayDeque<Sent, OUTSTANDING_CAPACITY, Saturating>,
}

/// The observations in a history, the oldest first.
pub uninterp spec fn history_items(history: History) -> Seq<Observation>;

/// The probes that await a reply, the front of the deque first.
pub uninterp spec fn outstanding_items(outstanding: Outstanding) -> Seq<Sent>;

/// `ArrayDeque::new`: an empty deque.
#[verifier::external_body]
pub(crate) fn history_new() -> (history: History)
    ensures
        history_items(history) == Seq::<Observation>::empty(),
{
    History { items: ArrayDeque::new() }
}

/// `ArrayDeque::len`: the number of items, which is never more than the
/// capacity.
#[verifier::external_body]
pub(crate) fn history_len(history: &History) -> (count: usize)
    ensures
        count == history_items(*history).len(),
        count <= HISTORY_CAPACITY,
{
    history.items.len()
}

/// `ArrayDeque::get`: the item at `index`, counted from the front; none from
/// the length on.
#[verifier::external_body]
pub(crate) fn history_get(history: &History, index: usize) -> (item: Option<Observation>)
    ensures
        item == (if index < history_items(*history).len() {
            Some(history_items(*history)[index as int])
        } else {
            None
        }),
{
    history.items.get(index).copied()
}

/// `ArrayDeque::push_back` of a wrapping deque: appends the item; a full
/// deque first gives up its front item, which is returned. The deque never
/// holds more than its capacity.
#[verifier::external_body]
pub(crate) fn history_push_back(history: &mut History, item: Observation) -> (evicted: Option<
    Observation,
>)
    ensures
        history_items(*old(history)).len() < HISTORY_CAPACITY ==> evicted is None && history_items(
            *final(history),
        ) == history_items(*old(history)).push(item),
        history_items(*old(history)).len() >= HISTORY_CAPACITY ==> evicted == Some(
            history_items(*old(history))[0],
        ) && history_items(*final(history)) == history_items(*old(history)).skip(1).push(item),
        history_items(*final(history)).len() <= HISTORY_CAPACITY,
{
    history.items.push_back(item)
}

/// `ArrayDeque::new`: an empty deque.
#[verifier::external_body]
pub(crate) fn outstanding_new() -> (outstanding: Outstanding)
    ensures
        outstanding_items(outstanding) == Seq::<Sent>::empty(),
{
    Outstanding { items: ArrayDeque::new() }
}

/// `ArrayDeque::len`: the number of items, which is never more than the
/// capacity.
#[verifier::external_body]
pub(crate) fn outstanding_len(outstanding: &Outstanding) -> (count: usize)
    ensures
        count == outstanding_items(*outstanding).len(),
        count <= OUTSTANDING_CAPACITY,
{
    outstanding.items.len()
}

/// `ArrayDeque::get`: the item at `index`, counted from the front; none from
/// the length on.
#[verifier::external_body]
pub(crate) fn outstanding_get(outstanding: &Outstanding, index: usize) -> (item: Option<Sent>)
    ensures
        item == (if index < outstanding_items(*outstanding).len() {
            Some(outstanding_items(*outstanding)[index as int])
        } else {
            None
        }),
{
    outstanding.items.get(index).copied()
}

/// `ArrayDeque::push_back` of a saturating deque: appends the item, unless
/// the deque is full: then nothing changes and the item comes back in the error.
#[verifier::external_body]
pub(crate) fn outstanding_push_back(outstanding: &mut Outstanding, item: Sent) -> (pushed: Result<
    (),
    CapacityError<Sent>,
>)
    ensures
        pushed is Ok <==> outstanding_items(*old(outstanding)).len() < OUTSTANDING_CAPACITY,
        pushed is Ok ==> outstanding_items(*final(outstanding)) == outstanding_items(
            *old(outstanding),
        ).push(item),
        pushed is Err ==> outstanding_items(*final(outstanding)) == outstanding_items(
            *old(outstanding),
        ),
{
    outstanding.items.push_back(item)
}

/// `ArrayDeque::pop_front`: takes the front item off; none from an empty deque.
#[verifier::external_body]
pub(crate) fn outstanding_pop_front(outstanding: &mut Outstanding) -> (item: Option<Sent>)
    ensures
        outstanding_items(*old(outstanding)).len() == 0 ==> item is None && outstanding_items(
            *final(outstanding),
        ) == outstanding_items(*old(outstanding)),
        outstanding_items(*old(outstanding)).len() > 0 ==> item == Some(
            outstanding_items(*old(outstanding))[0],
        ) && outstanding_items(*final(outstanding)) == outstanding_items(*old(outstanding)).skip(1),
{
    outstanding.items.pop_front()
}

/// `ArrayDeque::swap_remove_back`: takes the item at `index` out and puts the
/// last item in its place; none, and no change, from the length on.
#[verifier::external_body]
pub(crate) fn outstanding_swap_remove_back(outstanding: &mut Outstanding, index: usize) -> (item:
    Option<Sent>)
    ensures
        index >= outstanding_items(*old(outstanding)).len() ==> item is None && outstanding_items(
            *final(outstanding),
        ) == outstanding_items(*old(outstanding)),
        index < outstanding_items(*old(outstanding)).len() ==> item == Some(
            outstanding_items(*old(outstanding))[index as int],
        ) && outstanding_items(*final(outstanding)) == outstanding_items(*old(outstanding)).update(
            index as int,
            outstanding_items(*old(outstanding)).last(),
        ).drop_last(),
{
    outstanding.items.swap_remove_back(index)
}

} // verus!
