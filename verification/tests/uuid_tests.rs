use optee_utee::uuid::{Uuid, UuidError};

#[test]
fn test_to_string() {
    let uuids = [
        "00173366-2aca-49bc-beb7-10c975e6131e",
        "11173366-0aca-49bc-beb7-10c975e6131e",
        "11173366-2aca-09bc-beb7-10c975e6131e",
        "11173366-2aca-19bc-beb7-10c975e6131e",
    ];
    for origin in uuids.iter() {
        let uuid = Uuid::parse_str(origin);
        let formatted = uuid.map(|x| x.to_string());
        assert_eq!(Ok(origin.to_string()), formatted);
    }
}

#[test]
fn parse_refuses_garbage() {
    assert_eq!(Uuid::parse_str("not a uuid").map(|u| u.to_string()), Err(UuidError::InvalidString));
}

#[test]
fn parse_reads_other_forms() {
    let u = Uuid::parse_str("{11173366-2aca-19bc-beb7-10c975e6131e}").unwrap();
    assert_eq!(u.to_string(), "11173366-2aca-19bc-beb7-10c975e6131e");
    let v = Uuid::parse_str("111733662aca19bcbeb710c975e6131e").unwrap();
    assert_eq!(v.to_string(), "11173366-2aca-19bc-beb7-10c975e6131e");
}

#[test]
fn from_slice_needs_sixteen_bytes() {
    assert!(matches!(Uuid::from_slice(&[1u8; 15]), Err(UuidError::InvalidLength(15))));
    let u = Uuid::from_slice(&[0xabu8; 16]).unwrap();
    assert_eq!(u.to_string(), "abababab-abab-abab-abab-abababababab");
}

#[test]
fn new_raw_fields_round_trip() {
    let u = Uuid::new_raw(0x00173366, 0x2aca, 0x49bc, [0xbe, 0xb7, 0x10, 0xc9, 0x75, 0xe6, 0x13, 0x1e]);
    assert_eq!(u.to_string(), "00173366-2aca-49bc-beb7-10c975e6131e");
    assert_eq!(u.time_low(), 0x00173366);
    assert_eq!(u.time_mid(), 0x2aca);
    assert_eq!(u.time_hi_and_version(), 0x49bc);
    assert_eq!(u.clock_seq_and_node(), [0xbe, 0xb7, 0x10, 0xc9, 0x75, 0xe6, 0x13, 0x1e]);
    let w = Uuid::from_bytes([0u8; 16]);
    assert_eq!(w.to_string(), "00000000-0000-0000-0000-000000000000");
}

#[test]
fn parse_simple_form_and_refuse_other_lengths() {
    let u = Uuid::parse_str("26509cec4a2b493587ab762d89fbf0b0").unwrap();
    assert_eq!(u.to_string(), "26509cec-4a2b-4935-87ab-762d89fbf0b0");
    assert_eq!(Uuid::parse_str("26509cec-4a2b-4935-87ab-762d89fbf0b").err().unwrap(), UuidError::InvalidString);
}
