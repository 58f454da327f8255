use flytrap::ping::seq::{Counter, Sequence};

#[test]
fn sequence_holds_its_value() {
    assert_eq!(Sequence::new(0x1001).value(), 0x1001);
    assert_eq!(Sequence::new(u32::MAX).value(), u32::MAX);
}

#[test]
fn sequence_received_as_zero_is_none() {
    assert_eq!(Sequence::receive(0), None);
    assert_eq!(Sequence::receive(1), Some(Sequence::new(1)));
    assert_eq!(Sequence::receive(0x2001).unwrap().value(), 0x2001);
}

#[test]
fn sequence_written_as_zero_for_none() {
    assert_eq!(Sequence::write(&None), 0);
    assert_eq!(Sequence::write(&Some(Sequence::new(7))), 7);
    assert_eq!(Sequence::receive(Sequence::write(&Some(Sequence::new(7)))), Some(Sequence::new(7)));
    assert_eq!(Sequence::receive(Sequence::write(&None)), None);
}

#[test]
fn counter_starts_odd_with_a_byte_in_bits_20_to_27() {
    for _ in 0..64 {
        let mut counter = Counter::new();
        let first = counter.next().value();
        assert_eq!(first & 1, 1);
        assert_eq!(first & !(0xff << 20), 1);
    }
}

#[test]
fn counter_seeded() {
    assert_eq!(Counter::seeded(0).next().value(), 1);
    assert_eq!(Counter::seeded(1).next().value(), 0x0010_0001);
    assert_eq!(Counter::seeded(0xff).next().value(), 0x0ff0_0001);
}

#[test]
fn counter_counts_up() {
    let mut counter = Counter::seeded(0xa5);
    assert_eq!(counter.next().value(), 0x0a50_0001);
    assert_eq!(counter.next().value(), 0x0a50_0002);
    assert_eq!(counter.next().value(), 0x0a50_0003);
}

#[test]
fn counter_never_hands_out_zero() {
    let mut counter = Counter::starting_at(Sequence::new(u32::MAX - 1));
    assert_eq!(counter.next().value(), u32::MAX - 1);
    assert_eq!(counter.next().value(), u32::MAX);
    // zero is passed over
    assert_eq!(counter.next().value(), 1);
    assert_eq!(counter.next().value(), 2);
}

#[test]
fn sequence_into_u32() {
    assert_eq!(u32::from(Sequence::new(0x2001)), 0x2001);
}
