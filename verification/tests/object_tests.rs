use optee_utee::object::{
    Attribute, AttributeContent, AttributeId, AttributeMemref, AttributeValue, DataFlag, GenericObject,
    HandleFlag, ObjectCall, ObjectHandle, ObjectInfo, ObjectStorageConstants, PersistentObject,
    TeeObjectInfo, TransientObject, TransientObjectType, UsageFlag, Whence,
};
use optee_utee::ErrorKind;
use optee_utee::object::{next_object_id_len, ObjectEnumHandle};

const HANDLE: u64 = 0x1000;

#[test]
fn test_from_raw() {
    let obj = ObjectHandle::from_raw(HANDLE).expect("it should be ok");
    assert_eq!(obj.handle(), HANDLE);
    assert!(matches!(obj.close_call(), Some(ObjectCall::Close { handle: HANDLE })));
}

#[test]
fn test_forget() {
    let obj = ObjectHandle::from_raw(HANDLE).expect("it should be ok");
    assert_eq!(obj.handle(), HANDLE);
    let forgotten = obj.forget();
    assert!(forgotten.close_call().is_none());
}

#[test]
fn test_new_null() {
    let obj = ObjectHandle::new_null();
    assert!(obj.is_null());
    assert!(obj.close_call().is_none());
}

#[test]
fn null_raw_handle_is_bad_parameters() {
    assert_eq!(ObjectHandle::from_raw(0).err().unwrap().kind(), ErrorKind::BadParameters);
}

#[test]
fn test_allocate_and_drop() {
    let call = TransientObject::allocation(TransientObjectType::Aes, 128);
    assert!(matches!(call, ObjectCall::AllocateTransient { object_type: 0xA000_0010, max_object_size: 128 }));
    let obj = TransientObject::allocate(0, HANDLE).expect("it should be ok");
    assert!(!obj.is_null_object());
    assert!(matches!(obj.close_call(), Some(ObjectCall::Close { handle: HANDLE })));
}

#[test]
fn test_allocate_fail() {
    const RETURN_CODE: u32 = 0xFFFF_0007;
    let err = TransientObject::allocate(RETURN_CODE, 0).err().expect("it should be err");
    assert_eq!(err.raw_code(), RETURN_CODE);
    let err = TransientObject::allocate(0, 0).err().expect("it should be err");
    assert_eq!(err.kind(), ErrorKind::BadParameters);
}

#[test]
fn test_create_and_drop() {
    let call = PersistentObject::create_call(
        ObjectStorageConstants::Private,
        &[],
        DataFlag::from_bits_truncate(DataFlag::ACCESS_WRITE),
        None,
        &[],
    );
    match call {
        ObjectCall::CreatePersistent { storage_id, object_id, flags, attributes, initial_data } => {
            assert_eq!(storage_id, 1);
            assert!(object_id.is_empty());
            assert_eq!(flags, 2);
            assert_eq!(attributes, 0);
            assert!(initial_data.is_empty());
        }
        _ => panic!("not a create call"),
    }
    let obj = PersistentObject::create(0, HANDLE).expect("it should be ok");
    assert!(matches!(obj.close_call(), Some(ObjectCall::Close { handle: HANDLE })));
}

#[test]
fn test_create_failed() {
    const RETURN_CODE: u32 = 0xFFFF_0007;
    let err = PersistentObject::create(RETURN_CODE, 0).err().expect("it should be err");
    assert_eq!(err.raw_code(), RETURN_CODE);
}

#[test]
fn test_create_and_successfully_close_delete() {
    let obj = PersistentObject::create(0, HANDLE).expect("it should be ok");
    assert!(matches!(obj.close_and_delete_call(), ObjectCall::CloseAndDelete { handle: HANDLE }));
    let (result, handle) = obj.close_and_delete(0);
    result.expect("it should be ok");
    assert!(handle.close_call().is_none());
}

#[test]
fn test_create_and_failed_close_delete() {
    let obj = PersistentObject::create(0, HANDLE).expect("it should be ok");
    let (result, handle) = obj.close_and_delete(0xFFFF_0007);
    result.err().expect("it should be err");
    assert!(handle.close_call().is_none());
}

#[test]
fn generic_object_calls() {
    let mut obj = PersistentObject::open(0, HANDLE).unwrap();
    assert!(matches!(obj.info(), ObjectCall::GetInfo { handle: HANDLE }));
    let usage = UsageFlag::from_bits_truncate(UsageFlag::ENCRYPT | UsageFlag::DECRYPT);
    assert!(matches!(obj.restrict_usage(usage), ObjectCall::RestrictUsage { handle: HANDLE, usage: 6 }));
    assert!(matches!(
        obj.ref_attribute(AttributeId::SecretValue, 16),
        ObjectCall::GetBufferAttribute { handle: HANDLE, id: 0xC000_0000, capacity: 16 }
    ));
    assert!(matches!(obj.seek(-4, Whence::DataSeekEnd), ObjectCall::Seek { handle: HANDLE, offset: -4, whence: 2 }));
    assert!(matches!(obj.truncate(9), ObjectCall::Truncate { handle: HANDLE, size: 9 }));
    match obj.write(&[1, 2, 3]) {
        ObjectCall::Write { handle, data } => {
            assert_eq!(handle, HANDLE);
            assert_eq!(data, vec![1, 2, 3]);
        }
        _ => panic!("not a write call"),
    }
}

#[test]
fn attributes_and_populate() {
    let key = [7u8; 16];
    let m = AttributeMemref::from_ref(AttributeId::SecretValue, &key);
    let v = AttributeValue::from_value(AttributeId::DhXBits, 256, 0);
    assert_eq!(v.raw().attribute_id, 0xF000_1332);
    let attrs = [Attribute::from_memref(m), Attribute::from_value_attribute(v)];
    let mut obj = TransientObject::allocate(0, HANDLE).unwrap();
    match obj.populate(&attrs) {
        ObjectCall::Populate { handle, attrs } => {
            assert_eq!(handle, HANDLE);
            assert_eq!(attrs.len(), 2);
            assert_eq!(attrs[0].attribute_id, 0xC000_0000);
            assert!(matches!(&attrs[0].content, AttributeContent::Memref { buffer } if buffer == &vec![7u8; 16]));
            assert!(matches!(attrs[1].content, AttributeContent::Value { a: 256, b: 0 }));
        }
        _ => panic!("not a populate call"),
    }
}

#[test]
fn object_info_reads_fields() {
    let raw = TeeObjectInfo {
        object_type: 0xA000_0010,
        object_size: 128,
        max_object_size: 256,
        object_usage: 0,
        data_size: 40,
        data_position: 0,
        handle_flags: 0,
    };
    let info = ObjectInfo::from_reply(0, raw).ok().unwrap();
    assert_eq!(info.data_size(), 40);
    assert_eq!(info.object_size(), 128);
    assert_eq!(info.object_type(), 0xA000_0010);
    assert_eq!(ObjectInfo::from_reply(0xFFFF_0008, raw).err().unwrap().kind(), ErrorKind::ItemNotFound);
}

#[test]
fn flags() {
    let r = DataFlag::from_bits_truncate(DataFlag::ACCESS_READ);
    let w = DataFlag::from_bits_truncate(DataFlag::ACCESS_WRITE);
    let rw = r.union(w);
    assert_eq!(rw.bits(), 3);
    assert!(rw.contains(r) && rw.contains(w));
    assert!(!r.contains(w));
    assert!(DataFlag::from_bits(0x8000).is_none());
    assert_eq!(DataFlag::from_bits_truncate(0x8001).bits(), 1);
    assert_eq!(HandleFlag::from_bits(HandleFlag::KEY_SET).unwrap().bits(), 0x0004_0000);
    assert_eq!(UsageFlag::empty().bits(), 0);
}

#[test]
fn null_transient_object() {
    let o = TransientObject::null_object();
    assert!(o.is_null_object());
    assert!(o.close_call().is_none());
}

#[test]
fn enumerator_calls() {
    assert!(matches!(ObjectEnumHandle::allocation(), ObjectCall::AllocateEnumerator));
    let mut e = ObjectEnumHandle::allocate(0, 0x55).ok().unwrap();
    assert_eq!(e.handle(), 0x55);
    assert!(matches!(e.start(1), ObjectCall::StartEnumerator { handle: 0x55, storage_id: 1 }));
    assert!(matches!(e.get_next(64), ObjectCall::NextObject { handle: 0x55, id_capacity: 64 }));
    assert!(matches!(e.reset(), ObjectCall::ResetEnumerator { handle: 0x55 }));
    assert!(matches!(e.free_call(), ObjectCall::FreeEnumerator { handle: 0x55 }));
    assert_eq!(next_object_id_len(0, 12).unwrap(), 12);
    assert_eq!(next_object_id_len(0xFFFF_0008, 0).err().unwrap().kind(), ErrorKind::ItemNotFound);
    assert_eq!(ObjectEnumHandle::allocate(0xFFFF_000C, 0).err().unwrap().kind(), ErrorKind::OutOfMemory);
}
