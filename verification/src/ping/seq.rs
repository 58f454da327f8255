//! Sequence numbers: the non-zero 32-bit values that tie a reply to its probe.
//!
//! Zero never names a probe. On the wire it stands for "none", so a field of
//! fixed width can hold an optional sequence number.

use rand::Rng;
use vstd::prelude::*;
use vstd::std_specs::convert::FromSpecImpl;

verus! {

/// A sequential, non-zero [`u32`] ID. Its view is the number.
#[derive(Copy, Clone, Hash, PartialEq, Eq, Structural, PartialOrd, Ord, Debug)]
pub struct Sequence(u32);

impl View for Sequence {
    type V = u32;

    closed spec fn view(&self) -> u32 {
        self.0
    }
}

impl Sequence {
    #[verifier::type_invariant]
    closed spec fn nonzero(self) -> bool {
        self.0 != 0
    }

    /// The sequence number `value`, which must not be zero.
    pub fn new(value: u32) -> (seq: Sequence)
        requires
            value != 0,
        ensures
            seq == Sequence::of(value),
            seq@ == value,
    {
        Sequence(value)
    }

    /// The sequence number whose number is `value`.
    pub closed spec fn of(value: u32) -> Sequence {
        Sequence(value)
    }

    /// [`Sequence::of`] and the view undo each other.
    pub proof fn lemma_of(value: u32, seq: Sequence)
        ensures
            Sequence::of(value)@ == value,
            Sequence::of(seq@) == seq,
    {
    }

    /// The sequence number that a wire field holds: none where the field is zero.
    pub fn receive(value: u32) -> (seq: Option<Sequence>)
        ensures
            seq == received(value),
    {
        if value == 0 {
            None
        } else {
            Some(Sequence(value))
        }
    }

    /// The number itself, which is never zero.
    pub fn value(self) -> (value: u32)
        ensures
            value == self@,
            value != 0,
    {
        proof {
            use_type_invariant(self);
        }
        self.0
    }

    /// The wire field for an optional sequence number: zero for none.
    pub fn write(value: &Option<Sequence>) -> (field: u32)
        ensures
            field == wire_field(*value),
            field == 0 <==> *value is None,
    {
        match value {
            Some(seq) => seq.value(),
            None => 0,
        }
    }

    /// Two sequence numbers are equal exactly when their numbers are.
    pub proof fn lemma_equal_by_value(self, other: Sequence)
        ensures
            self@ == other@ <==> self == other,
    {
    }
}

impl FromSpecImpl<Sequence> for u32 {
    open spec fn obeys_from_spec() -> bool {
        true
    }

    open spec fn from_spec(value: Sequence) -> u32 {
        value@
    }
}

impl From<Sequence> for u32 {
    fn from(value: Sequence) -> (number: u32) {
        value.value()
    }
}

/// What [`Sequence::receive`] makes of a wire field: zero is no sequence number.
pub open spec fn received(value: u32) -> Option<Sequence> {
    if value == 0 {
        None
    } else {
        Some(Sequence::of(value))
    }
}

/// What [`Sequence::write`] puts on the wire for an optional sequence number.
pub open spec fn wire_field(value: Option<Sequence>) -> u32 {
    match value {
        Some(seq) => seq@,
        None => 0,
    }
}

/// Reading back what [`Sequence::write`] wrote gives the value that was
/// written, for every optional sequence number that is not zero.
pub proof fn lemma_receive_inverts_write(value: Option<Sequence>)
    requires
        value is Some ==> value.unwrap()@ != 0,
    ensures
        received(wire_field(value)) == value,
{
    if let Some(seq) = value {
        Sequence::lemma_of(seq@, seq);
    }
}

/// `rand::thread_rng` and `Rng::gen`: one byte from the thread's random
/// number generator. Nothing is known of the byte.
#[verifier::external_body]
fn random_byte() -> u8 {
    rand::thread_rng().gen()
}

/// The first value of a counter that was seeded with `byte`: the byte in bits
/// 20 to 27, and bit 0 set.
pub open spec fn seeded_value(byte: u8) -> u32 {
    ((byte as u32) << 20) | 1
}

/// Generate [sequential][Sequence] 32-bit IDs. Its view is the value it hands out next.
#[derive(Copy, Clone, Debug)]
pub struct Counter(u32);

impl View for Counter {
    type V = u32;

    closed spec fn view(&self) -> u32 {
        self.0
    }
}

impl Counter {
    #[verifier::type_invariant]
    closed spec fn nonzero(self) -> bool {
        self.0 != 0
    }

    /// A counter that starts at a random odd value: a random byte in bits
    /// 20 to 27, and bit 0 set.
    pub fn new() -> (counter: Counter)
        ensures
            exists|byte: u8| counter@ == seeded_value(byte),
            counter@ != 0,
    {
        let byte = random_byte();
        let counter = Counter::seeded(byte);
        proof {
            use_type_invariant(&counter);
        }
        counter
    }

    /// The counter that hands out `first` next.
    pub fn starting_at(first: Sequence) -> (counter: Counter)
        ensures
            counter@ == first@,
    {
        Counter(first.value())
    }

    /// The counter that starts at [`seeded_value`] of `byte`.
    pub fn seeded(byte: u8) -> (counter: Counter)
        ensures
            counter@ == seeded_value(byte),
    {
        let high: u32 = (byte as u32) << 20;
        let value: u32 = high | 1;
        assert(value != 0) by (bit_vector)
            requires
                value == high | 1,
        ;
        Counter(value)
    }

    /// Hand out the current value and step to the next one. The step after
    /// `u32::MAX` goes to 1, never to zero.
    pub fn next(&mut self) -> (seq: Sequence)
        ensures
            seq@ == old(self)@,
            final(self)@ == successor(old(self)@),
    {
        proof {
            use_type_invariant(&*self);
        }
        let current: u32 = self.0;
        let stepped: u32 = current.wrapping_add(1);
        if stepped == 0 {
            self.0 = 1;
        } else {
            self.0 = stepped;
        }
        Sequence::new(current)
    }
}

/// The value that follows `value` in a counter: one more, and 1 after `u32::MAX`.
pub open spec fn successor(value: u32) -> u32 {
    if value == u32::MAX {
        1
    } else {
        (value + 1) as u32
    }
}

} // verus!
