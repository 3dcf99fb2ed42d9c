use optee_utee::parameter::RawParam;
use optee_utee::tee_parameter::ParamState;
use optee_utee::{ErrorKind, ParamIndex, ParamType, ParamTypes, TeeParams};

#[test]
fn new_params_are_empty() {
    let p = TeeParams::new();
    assert_eq!(p.raw_param_types(), 0);
    assert!(p.get(ParamIndex::Arg0).written_slice().is_none());
    assert!(p.get(ParamIndex::Arg3).output_value().is_none());
}

#[test]
fn raw_param_types_pack_four_nibbles() {
    let input = [1u8, 2, 3];
    let out = [0u8; 4];
    let p = TeeParams::new()
        .with_memref_in(ParamIndex::Arg0, &input)
        .with_memref_out(ParamIndex::Arg1, &out)
        .with_value_in(ParamIndex::Arg2, 42, 0)
        .with_value_out(ParamIndex::Arg3, 0, 0);
    assert_eq!(p.raw_param_types(), 0x2165);
    let (a, b, c, d) = ParamTypes::from_u32(p.raw_param_types()).into_flags();
    assert!(matches!(a, ParamType::MemrefInput));
    assert!(matches!(b, ParamType::MemrefOutput));
    assert!(matches!(c, ParamType::ValueInput));
    assert!(matches!(d, ParamType::ValueOutput));
}

#[test]
fn update_reads_back_outputs() {
    let input = [1u8, 2, 3];
    let out = [0u8; 4];
    let mut p = TeeParams::new();
    p.set_memref_in(ParamIndex::Arg0, &input);
    p.set_memref_inout(ParamIndex::Arg1, &out);
    p.set_value_inout(ParamIndex::Arg2, 1, 2);
    p.set_value_out(ParamIndex::Arg3, 0, 0);
    let mut raws = p.as_raw();
    assert_eq!(raws[0].buffer, vec![1, 2, 3]);
    assert_eq!(raws[1].size, 4);
    raws[1].buffer = vec![9, 8, 7, 6];
    raws[1].size = 2;
    raws[2].a = 5;
    raws[2].b = 6;
    raws[3].a = 7;
    raws[3].b = 8;
    p.update_from_raw(&raws).unwrap();
    assert_eq!(p.get(ParamIndex::Arg1).written_slice(), Some(&[9u8, 8][..]));
    assert_eq!(p.get(ParamIndex::Arg2).output_value(), Some((5, 6)));
    assert_eq!(p.get(ParamIndex::Arg3).output_value(), Some((7, 8)));
    assert!(p.get(ParamIndex::Arg0).written_slice().is_none());
}

#[test]
fn update_stops_at_first_oversized_output() {
    let out = [0u8; 2];
    let mut p = TeeParams::new()
        .with_value_out(ParamIndex::Arg0, 0, 0)
        .with_memref_out(ParamIndex::Arg1, &out)
        .with_value_out(ParamIndex::Arg2, 0, 0);
    let mut raws = p.as_raw();
    raws[0].a = 1;
    raws[1].size = 3;
    raws[2].a = 2;
    let err = p.update_from_raw(&raws).err().unwrap();
    assert_eq!(err.kind(), ErrorKind::BadParameters);
    assert_eq!(p.get(ParamIndex::Arg0).output_value(), Some((1, 0)));
    assert_eq!(p.get(ParamIndex::Arg1).written_slice(), Some(&[][..]));
    assert_eq!(p.get(ParamIndex::Arg2).output_value(), Some((0, 0)));
}

#[test]
fn read_back_leaves_inputs_alone() {
    let input = [4u8, 5];
    let mut params = TeeParams::new()
        .with_value_in(ParamIndex::Arg0, 1, 2)
        .with_memref_in(ParamIndex::Arg1, &input);
    let raws = vec![RawParam::value(3, 4), RawParam::memref(vec![0, 0]), RawParam::value(0, 0), RawParam::value(0, 0)];
    assert!(params.update_from_raw(&raws).is_ok());
    assert!(params.get(ParamIndex::Arg0).output_value().is_none());
    assert!(params.get(ParamIndex::Arg1).written_slice().is_none());
    let again = params.as_raw();
    assert_eq!((again[0].a, again[0].b), (1, 2));
    assert_eq!(again[1].buffer, vec![4, 5]);
    let _ = ParamState::Empty;
}

#[test]
fn setters_chain() {
    let input = [1u8];
    let out = [0u8; 3];
    let mut p = TeeParams::new();
    p.set_memref_in(ParamIndex::Arg0, &input)
        .set_memref_out(ParamIndex::Arg1, &out)
        .set_value_in(ParamIndex::Arg2, 1, 2)
        .set_value_inout(ParamIndex::Arg3, 3, 4);
    assert_eq!(p.raw_param_types(), 0x3165);
    assert_eq!(p.get(ParamIndex::Arg1).written_slice(), Some(&[][..]));
    assert_eq!(p.get(ParamIndex::Arg3).output_value(), Some((3, 4)));
}

#[test]
fn written_part_is_the_reported_prefix() {
    let out = [0u8; 4];
    let mut p = TeeParams::new().with_memref_out(ParamIndex::Arg2, &out);
    assert_eq!(p.get(ParamIndex::Arg2).written_slice(), Some(&[][..]));
    let mut raws = p.as_raw();
    raws[2].buffer = vec![5, 6, 7, 8];
    raws[2].size = 3;
    p.update_from_raw(&raws).unwrap();
    assert_eq!(p.get(ParamIndex::Arg2).written_slice(), Some(&[5u8, 6, 7][..]));
}
