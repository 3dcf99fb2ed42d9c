use optee_utee::parameter::RawParam;
use optee_utee::{ErrorKind, ParamType, ParamTypes, Parameter, Parameters};

#[test]
fn param_types_unpack_each_nibble() {
    let t = ParamTypes::from_u32(0x7651);
    let (a, b, c, d) = t.into_flags();
    assert!(matches!(a, ParamType::ValueInput));
    assert!(matches!(b, ParamType::MemrefInput));
    assert!(matches!(c, ParamType::MemrefOutput));
    assert!(matches!(d, ParamType::MemrefInout));
    let (e, _, _, _) = ParamTypes::from_u32(0x0004).into_flags();
    assert!(matches!(e, ParamType::Empty));
}

#[test]
fn param_type_codes() {
    assert_eq!(ParamType::ValueInout.code(), 3);
    assert_eq!(ParamType::MemrefInout.code(), 7);
    assert!(matches!(ParamType::from_code(2), ParamType::ValueOutput));
    assert!(matches!(ParamType::from_code(9), ParamType::Empty));
}

#[test]
fn parameters_from_raw() {
    let raws = vec![
        RawParam::value(1, 2),
        RawParam::memref(vec![9, 8, 7]),
        RawParam::value(3, 4),
        RawParam::memref(vec![]),
    ];
    let mut p = Parameters::from_raw(raws, 0x6152);
    let v = p.0.as_value().unwrap();
    assert_eq!((v.a(), v.b()), (1, 2));
    assert!(matches!(v.param_type(), ParamType::ValueOutput));
    let mut m = p.1.as_memref().unwrap();
    assert_eq!(m.buffer().to_vec(), vec![9, 8, 7]);
    assert_eq!(m.raw(), 3);
    assert!(p.1.as_value().is_err());
    assert_eq!(p.0.as_memref().err().unwrap().kind(), ErrorKind::BadParameters);
}

#[test]
fn value_and_memref_updates() {
    let mut p = Parameter::from_raw(RawParam::value(5, 6), ParamType::ValueInout);
    let mut v = p.as_value().unwrap();
    v.set_a(10);
    v.set_b(11);
    assert_eq!((v.a(), v.b()), (10, 11));
    assert_eq!((p.raw.a, p.raw.b), (10, 11));
    let mut q = Parameter::from_raw(RawParam::memref(vec![1, 2, 3, 4]), ParamType::MemrefOutput);
    let mut m = q.as_memref().unwrap();
    m.buffer()[0] = 9;
    m.set_updated_size(2);
    assert_eq!(m.buffer().to_vec(), vec![9, 2]);
    assert!(matches!(m.param_type(), ParamType::MemrefOutput));
    assert_eq!(q.raw.size, 2);
    assert_eq!(q.raw.buffer, vec![9, 2, 3, 4]);
}

#[test]
fn views_write_back_into_the_parameters() {
    let raws = vec![RawParam::value(1, 2), RawParam::memref(vec![0, 0, 0]), RawParam::value(0, 0), RawParam::value(0, 0)];
    let mut p = Parameters::from_raw(raws, 0x0063);
    p.0.as_value().unwrap().set_b(7);
    {
        let mut m = p.1.as_memref().unwrap();
        m.buffer().copy_from_slice(&[4, 5, 6]);
        m.set_updated_size(1);
    }
    let back = p.into_raw();
    assert_eq!((back[0].a, back[0].b), (1, 7));
    assert_eq!(back[1].buffer, vec![4, 5, 6]);
    assert_eq!(back[1].size, 1);
}
