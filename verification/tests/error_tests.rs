use optee_utee::error::{check_status, value_on_success};
use optee_utee::{Error, ErrorKind, ErrorOrigin};

#[test]
fn from_raw_error_reads_the_kind() {
    let e = Error::from_raw_error(0xFFFF_0006);
    assert_eq!(e.kind(), ErrorKind::BadParameters);
    assert_eq!(e.raw_code(), 0xFFFF_0006);
    assert_eq!(e.origin(), None);
    assert_eq!(e.message(), "Input parameters were invalid.");
}

#[test]
fn unknown_codes_are_unknown() {
    let e = Error::from_raw_error(0x1234_5678);
    assert_eq!(e.kind(), ErrorKind::Unknown);
    assert_eq!(e.message(), "Unknown error.");
}

#[test]
fn every_kind_round_trips_through_its_code() {
    let kinds = [
        ErrorKind::CorruptObject,
        ErrorKind::Generic,
        ErrorKind::ShortBuffer,
        ErrorKind::OutOfMemory,
        ErrorKind::TimeNeedsReset,
        ErrorKind::MacInvalid,
    ];
    for k in kinds.iter() {
        assert_eq!(ErrorKind::from_code(k.code()), *k);
        assert_eq!(Error::from_raw_error(k.code()).kind(), *k);
    }
    assert_eq!(ErrorKind::ShortBuffer.code(), 0xFFFF_0010);
}

#[test]
fn origin_is_kept() {
    let e = Error::new(ErrorKind::BadState).with_origin(ErrorOrigin::TEE);
    assert_eq!(e.kind(), ErrorKind::BadState);
    assert_eq!(e.origin(), Some(ErrorOrigin::TEE));
    assert_eq!(ErrorOrigin::from_code(ErrorOrigin::API.code()), ErrorOrigin::API);
    assert_eq!(ErrorOrigin::from_code(99), ErrorOrigin::UNKNOWN);
}

#[test]
fn status_checks() {
    assert!(check_status(0).is_ok());
    assert_eq!(check_status(0xFFFF_000C).err().unwrap().kind(), ErrorKind::OutOfMemory);
    assert_eq!(value_on_success(0, 7u32).unwrap(), 7);
    assert_eq!(value_on_success(0xFFFF_0000, 7u32).err().unwrap().kind(), ErrorKind::Generic);
}

#[test]
fn external_cancel_has_its_documented_message() {
    let e = Error::from_raw_error(0xFFFF_0011);
    assert_eq!(e.kind(), ErrorKind::ExternalCancel);
    assert_eq!(
        ErrorKind::ExternalCancel.as_str(),
        "The operation has been cancelled by an external event which occurred in the REE while the function was in progress."
    );
    assert_eq!(e.message(), ErrorKind::ExternalCancel.as_str());
}
