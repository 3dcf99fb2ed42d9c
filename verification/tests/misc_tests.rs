use optee_utee::arithmetical::{BigInt, BigIntFMM, BigIntFMMContext};
use optee_utee::property::{
    blob_from_reply, size_query_outcome, string_from_reply, ClientIdentity, PropertyKey, PropertySet, SizeOutcome,
    TaAppId, TeeDescription,
};
use optee_utee::ta_session::{TaSession, TaSessionCall};
use optee_utee::{ErrorKind, Identity, LoginType, ParamIndex, TeeParams, Time, Uuid};
use optee_utee::entry::{entry_status, invoke_command_status, run_invoke_command, EntryPoint, EntrySignature};
use optee_utee::Error;
use optee_utee::entry::Session;

#[test]
fn identity_login_types() {
    let u = Uuid::from_bytes([1u8; 16]);
    let id = Identity::from_raw(0xF000_0000, u);
    assert_eq!(id.login_type(), LoginType::TrustedApp);
    assert_eq!(id.uuid().to_string(), u.to_string());
    assert_eq!(LoginType::from_code(4), Some(LoginType::Application));
    assert_eq!(LoginType::from_code(3), None);
    assert_eq!(LoginType::ApplicationGroup.code(), 6);
    assert_eq!(LoginType::ApplicationUser.as_str(), "ApplicationUser");
}

#[test]
fn time_text() {
    let mut t = Time::new();
    assert_eq!(t.to_string(), "(second: 0, millisecond: 0)");
    t.seconds = 1700000000;
    t.millis = 42;
    assert_eq!(t.to_string(), "(second: 1700000000, millisecond: 42)");
}

#[test]
fn property_keys_and_sets() {
    assert_eq!(TaAppId.key(), "gpd.ta.appID");
    assert_eq!(TaAppId.set(), PropertySet::CurrentTa);
    assert_eq!(ClientIdentity.set(), PropertySet::CurrentClient);
    assert_eq!(TeeDescription.key(), "gpd.tee.description");
    assert_eq!(PropertySet::TeeImplementation.as_raw(), 0xFFFF_FFFD);
}

#[test]
fn property_replies() {
    assert!(matches!(size_query_outcome(0, 0), SizeOutcome::Empty));
    assert!(matches!(size_query_outcome(0xFFFF_0010, 12), SizeOutcome::Fetch(12)));
    assert!(matches!(size_query_outcome(0, 3), SizeOutcome::Failed(e) if e.kind() == ErrorKind::Generic));
    assert!(matches!(size_query_outcome(0xFFFF_0008, 3), SizeOutcome::Failed(e) if e.kind() == ErrorKind::ItemNotFound));
    assert_eq!(string_from_reply(0, b"OP-TEE\0").unwrap(), "OP-TEE");
    assert_eq!(string_from_reply(0, b"OP\0TEE\0").err().unwrap().kind(), ErrorKind::BadFormat);
    assert_eq!(string_from_reply(0, b"no nul").err().unwrap().kind(), ErrorKind::BadFormat);
    assert_eq!(string_from_reply(0xFFFF_0006, b"x\0").err().unwrap().kind(), ErrorKind::BadParameters);
    assert_eq!(blob_from_reply(0, vec![1, 2]).unwrap(), vec![1, 2]);
}

#[test]
fn big_int_sizes() {
    assert_eq!(BigInt::size_in_u32(0), 2);
    assert_eq!(BigInt::size_in_u32(1), 3);
    assert_eq!(BigInt::size_in_u32(2048), 66);
    let b = BigInt::new(64);
    assert_eq!(b.data_ptr().len(), 4);
    assert!(b.data_ptr().iter().all(|w| *w == 0));
    assert_eq!(b.octet_buffer_size(), 8);
    assert_eq!(BigInt::octets_from_reply(0, vec![1, 2, 3, 4], 2).unwrap(), vec![1, 2]);
    assert_eq!(BigInt::s32_from_reply(0xFFFF_300F, 1).err().unwrap().kind(), ErrorKind::Overflow);
    assert_eq!(BigInt::sum_bits(10, 20), 21);
    assert_eq!(BigInt::product_bits(10, 20), 30);
    assert_eq!(BigInt::square_bits(10), 20);
    assert_eq!(BigInt::quotient_bits(1, 10, 10), 1);
    assert_eq!(BigInt::quotient_bits(1, 30, 10), 20);
    assert_eq!(BigInt::quotient_bits(-1, 3, 10), 0);
    assert_eq!(BigInt::quotient_bits(1, 3, 10), 1);
    assert_eq!(BigIntFMM::with_size_in_u32(3).data_ptr(), &[0, 0, 0]);
    assert_eq!(BigIntFMMContext::with_size_in_u32(2).data_ptr(), &[0, 0]);
}

#[test]
fn ta_session_calls() {
    let u = Uuid::from_bytes([2u8; 16]);
    assert!(matches!(TaSession::new(u, 100), TaSessionCall::Open { timeout: 100, param_types: 0, .. }));
    let params = TeeParams::new().with_value_in(ParamIndex::Arg0, 1, 2);
    let mut s = TaSession::open(0, 0x33).ok().unwrap();
    assert_eq!(s.as_mut_raw_ptr(), 0x33);
    match s.invoke_command(5, 9, &params) {
        TaSessionCall::Invoke { session, timeout, command_id, param_types, params } => {
            assert_eq!((session, timeout, command_id, param_types), (0x33, 5, 9, 1));
            assert_eq!((params[0].a, params[0].b), (1, 2));
        }
        _ => panic!("not an invoke call"),
    }
    assert!(matches!(s.close_call(), TaSessionCall::Close { session: 0x33 }));
    assert_eq!(TaSession::open(0xFFFF_3024, 0).err().unwrap().kind(), ErrorKind::TargetDead);
}

fn signature(inputs: usize, returns_unit: bool) -> EntrySignature {
    EntrySignature {
        is_const: false,
        is_private: true,
        has_abi: false,
        inputs,
        has_where_clause: false,
        is_variadic: false,
        returns_unit,
    }
}

#[test]
fn entry_signatures() {
    assert!(EntryPoint::Create.accepts(&signature(0, false)));
    assert!(!EntryPoint::Create.accepts(&signature(1, false)));
    assert!(EntryPoint::Destroy.accepts(&signature(0, true)));
    assert!(!EntryPoint::Destroy.accepts(&signature(0, false)));
    assert!(EntryPoint::OpenSession.accepts(&signature(2, false)));
    assert!(!EntryPoint::OpenSession.accepts(&signature(3, false)));
    assert!(EntryPoint::CloseSession.accepts(&signature(1, true)));
    assert!(EntryPoint::InvokeCommand.accepts(&signature(3, false)));
    assert!(!EntryPoint::InvokeCommand.accepts(&signature(1, false)));
    let mut public = signature(2, false);
    public.is_private = false;
    assert!(!EntryPoint::InvokeCommand.accepts(&public));
    assert_eq!(EntryPoint::Destroy.signature_error(), "`#[ta_destroy]` function must have signature `fn()`");
}

#[test]
fn entry_statuses() {
    assert_eq!(entry_status(&Ok(())), 0);
    assert_eq!(entry_status(&Err(Error::new(ErrorKind::BadParameters))), 0xFFFF_0006);
    assert_eq!(invoke_command_status(false, &Ok(())), 0xFFFF_000F);
    assert_eq!(invoke_command_status(true, &Err(Error::new(ErrorKind::ShortBuffer))), 0xFFFF_0010);
}

#[test]
fn error_text() {
    assert_eq!(
        Error::from_raw_error(0xFFFF_0006).to_string(),
        "Input parameters were invalid. (error code 0xffff0006, origin 0x0)"
    );
    let e = Error::new(ErrorKind::Busy).with_origin(optee_utee::ErrorOrigin::TEE);
    assert_eq!(e.to_string(), "The system is busy working on something else. (error code 0xffff000d, origin 0x3)");
}

#[test]
fn uuid_raw_round_trip() {
    let u = Uuid::parse_str("00173366-2aca-49bc-beb7-10c975e6131e").unwrap();
    let raw = u.as_raw_ptr();
    assert_eq!(raw.time_low, 0x00173366);
    assert_eq!(raw.time_mid, 0x2aca);
    assert_eq!(raw.time_hi_and_version, 0x49bc);
    assert_eq!(raw.clock_seq_and_node, [0xbe, 0xb7, 0x10, 0xc9, 0x75, 0xe6, 0x13, 0x1e]);
    assert_eq!(Uuid::from_raw(raw).to_string(), u.to_string());
}

#[test]
fn session_contexts() {
    assert_eq!(Session::allocated(0).err().unwrap().kind(), ErrorKind::OutOfMemory);
    let mut s = Session::allocated(0x40).ok().unwrap();
    assert!(s.validate().is_ok());
    s.collect(0);
    assert_eq!(s.validate().err().unwrap().kind(), ErrorKind::ItemNotFound);
    let mut t = Session::new(0);
    assert!(t.validate().is_err());
}

#[test]
fn command_runs_only_with_a_session() {
    let mut ran = false;
    assert_eq!(run_invoke_command(false, || { ran = true; Ok(()) }), 0xFFFF_000F);
    assert!(!ran);
    assert_eq!(run_invoke_command(true, || { ran = true; Err(Error::new(ErrorKind::ShortBuffer)) }), 0xFFFF_0010);
    assert!(ran);
}
