use optee_utee::crypto_op::{
    output_size, AlgorithmId, Asymmetric, Cipher, Digest, ElementId, Mac, OpHandle, OperationCall,
    OperationConstant, OperationInfo, OperationInfoMultiple, OperationMode, OperationStates, Random,
    TeeOperationInfo, AE, DeriveKey,
};
use optee_utee::object::{GenericObject, TransientObject};
use optee_utee::ErrorKind;
use optee_utee::crypto_op::{encrypt_final_sizes, is_algorithm_supported, output_bytes};

#[test]
fn digest_allocation_and_calls() {
    let call = Digest::allocation(AlgorithmId::Sha256);
    assert!(matches!(call, OperationCall::Allocate { algorithm: 0x5000_0004, mode: 5, max_key_size: 0 }));
    let mut d = Digest::allocate(0, 0x42).unwrap();
    assert_eq!(d.handle(), 0x42);
    assert!(matches!(d.info(), OperationCall::GetInfo { handle: 0x42 }));
    assert!(matches!(d.reset(), OperationCall::Reset { handle: 0x42 }));
    assert!(matches!(d.info_multiple(64), OperationCall::GetInfoMultiple { handle: 0x42, capacity: 64 }));
    match d.do_final(&[1, 2], 32) {
        OperationCall::DigestDoFinal { handle, chunk, capacity } => {
            assert_eq!((handle, capacity), (0x42, 32));
            assert_eq!(chunk, vec![1, 2]);
        }
        _ => panic!("not a final call"),
    }
    assert!(matches!(d.free_call(), Some(OperationCall::Free { handle: 0x42 })));
    assert!(Digest::null().free_call().is_none());
    assert_eq!(Digest::allocate(0xFFFF_000C, 0).err().unwrap().kind(), ErrorKind::OutOfMemory);
}

#[test]
fn allocation_modes() {
    assert!(matches!(
        Cipher::allocation(AlgorithmId::AesCtr, OperationMode::Encrypt, 128),
        OperationCall::Allocate { algorithm: 0x1000_0210, mode: 0, max_key_size: 128 }
    ));
    assert!(matches!(
        Mac::allocation(AlgorithmId::HmacSha256, 256),
        OperationCall::Allocate { algorithm: 0x3000_0004, mode: 4, max_key_size: 256 }
    ));
    assert!(matches!(
        AE::allocation(AlgorithmId::AesGcm, OperationMode::Decrypt, 128),
        OperationCall::Allocate { algorithm: 0x4000_0810, mode: 1, max_key_size: 128 }
    ));
    assert!(matches!(
        Asymmetric::allocation(AlgorithmId::RsassaPkcs1V15Sha256, OperationMode::Sign, 2048),
        OperationCall::Allocate { algorithm: 0x7000_4830, mode: 2, max_key_size: 2048 }
    ));
    assert!(matches!(
        DeriveKey::allocation(AlgorithmId::DhDeriveSharedSecret, 2048),
        OperationCall::Allocate { algorithm: 0x8000_0032, mode: 6, max_key_size: 2048 }
    ));
}

#[test]
fn keys_and_copies() {
    let key = TransientObject::allocate(0, 0x77).unwrap();
    let c = Cipher::allocate(0, 0x10).unwrap();
    assert!(matches!(c.set_key(&key), OperationCall::SetKey { handle: 0x10, key: 0x77 }));
    assert_eq!(key.handle(), 0x77);
    let mut c2 = Cipher::allocate(0, 0x11).unwrap();
    assert!(matches!(c2.copy(&c), OperationCall::Copy { dst: 0x11, source: 0x10 }));
    assert!(matches!(c.set_key_2(&key, &key), OperationCall::SetKey2 { handle: 0x10, key1: 0x77, key2: 0x77 }));
}

#[test]
fn infos_and_outputs() {
    let raw = TeeOperationInfo {
        algorithm: 0x5000_0004,
        operation_class: 5,
        mode: 5,
        digest_length: 32,
        max_key_size: 0,
        key_size: 0,
        required_key_usage: 0,
        handle_state: 0,
    };
    let info = OperationInfo::from_raw(raw);
    assert_eq!(info.key_size(), 0);
    assert_eq!(info.max_key_size(), 0);
    let m = OperationInfoMultiple::from_reply(0, vec![1, 2, 3], 3).ok().unwrap();
    assert_eq!(m.raw(), &[1, 2, 3]);
    assert_eq!(m.size(), 3);
    assert_eq!(OperationInfoMultiple::from_reply(0xFFFF_0010, vec![], 0).err().unwrap().kind(), ErrorKind::ShortBuffer);
    assert_eq!(output_size(0, 20).unwrap(), 20);
    assert_eq!(output_size(0xFFFF_0010, 20).err().unwrap().kind(), ErrorKind::ShortBuffer);
}

#[test]
fn constants() {
    assert_eq!(OperationStates::Active.code(), 1);
    assert_eq!(OperationConstant::KeyDerivation.code(), 8);
    assert_eq!(OperationMode::IllegalValue.code(), 0x7fff_ffff);
    assert_eq!(ElementId::EccCurve25519.code(), 0x300);
    assert_eq!(AlgorithmId::IllegalValue.code(), 0xefff_ffff);
    assert!(matches!(Random::generate(16), OperationCall::GenerateRandom { len: 16 }));
}

#[test]
fn authenticated_encryption_calls() {
    let ae = AE::allocate(0, 0x20).unwrap();
    match ae.init(&[1, 2, 3], 128, 16, 64) {
        OperationCall::AEInit { handle, nonce, tag_len, aad_len, payload_len } => {
            assert_eq!((handle, tag_len, aad_len, payload_len), (0x20, 128, 16, 64));
            assert_eq!(nonce, vec![1, 2, 3]);
        }
        _ => panic!("not an init call"),
    }
    assert!(matches!(ae.encrypt_final(&[], 16, 16), OperationCall::AEEncryptFinal { handle: 0x20, capacity: 16, tag_capacity: 16, .. }));
    assert_eq!(encrypt_final_sizes(0, 10, 16).unwrap(), (10, 16));
    assert_eq!(encrypt_final_sizes(0xFFFF_0010, 10, 16).err().unwrap().kind(), ErrorKind::ShortBuffer);
}

#[test]
fn asymmetric_outputs() {
    let a = Asymmetric::allocate(0, 0x30).unwrap();
    assert!(matches!(a.encrypt(&[], &[1], 256), OperationCall::AsymmetricEncrypt { handle: 0x30, capacity: 256, .. }));
    assert!(matches!(a.verify_digest(&[], &[1], &[2]), OperationCall::AsymmetricVerifyDigest { handle: 0x30, .. }));
    assert_eq!(output_bytes(0, vec![1, 2, 3, 4], 3).unwrap(), vec![1, 2, 3]);
    assert_eq!(output_bytes(0, vec![1, 2], 3).unwrap(), vec![1, 2]);
    assert_eq!(output_bytes(0xFFFF_000C, vec![1, 2], 1).err().unwrap().kind(), ErrorKind::OutOfMemory);
    assert!(matches!(is_algorithm_supported(0x5000_0004, 0), OperationCall::IsAlgorithmSupported { algorithm: 0x5000_0004, element: 0 }));
}
