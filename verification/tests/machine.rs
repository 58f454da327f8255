use flytrap::machine::{read_hex, InvalidMachineId, MachineId};

#[test]
fn machine_id() {
    assert_eq!(
        MachineId::new("148eddd3b36068"),
        MachineId::from_raw(0x148eddd3b36068).unwrap(),
    );

    assert_eq!(
        MachineId::new("148eddd3b36068").to_string(),
        "148eddd3b36068"
    );
}

#[test]
fn machine_id_is_padded_to_fourteen_digits() {
    assert_eq!(MachineId::from_raw(0x1f).unwrap().to_string(), "0000000000001f");
    assert_eq!(
        MachineId::from_raw(u64::MAX).unwrap().to_string(),
        "ffffffffffffffff"
    );
}

#[test]
fn machine_id_rejects_zero_and_garbage() {
    assert_eq!(MachineId::parse("0"), Err(InvalidMachineId));
    assert_eq!(MachineId::parse("0000"), Err(InvalidMachineId));
    assert_eq!(MachineId::parse(""), Err(InvalidMachineId));
    assert_eq!(MachineId::parse("+"), Err(InvalidMachineId));
    assert_eq!(MachineId::parse("12g4"), Err(InvalidMachineId));
    assert_eq!(MachineId::parse("-1"), Err(InvalidMachineId));
    assert_eq!(MachineId::parse("1ffffffffffffffff"), Err(InvalidMachineId));
    assert_eq!(MachineId::from_raw(0), None);
}

#[test]
fn machine_id_reads_either_case_and_a_plus() {
    assert_eq!(MachineId::parse("+AbC").unwrap().into_raw(), 0xabc);
    assert_eq!("6e82de14c35038".parse::<MachineId>().unwrap().into_raw(), 0x6e82de14c35038);
    assert_eq!(read_hex(b"ffffffffffffffff"), Some(u64::MAX));
    assert_eq!(read_hex(b"00000000000000000000001"), Some(1));
    assert_eq!(read_hex(b"10000000000000000"), None);
}

#[test]
fn machine_id_text_reads_back() {
    let id = MachineId::from_raw(0x4d89699c030518).unwrap();
    assert_eq!(MachineId::parse(&id.to_string()), Ok(id));
}
