//! Cryptographic operations: the handles of digest, cipher, MAC,
//! authenticated encryption, asymmetric and key derivation operations, the
//! TEE calls that act on them, and the identifiers of algorithms and modes.

use vstd::prelude::*;
use crate::defines::{TEE_ALG_AES_ECB_NOPAD, TEE_ALG_AES_CBC_NOPAD, TEE_ALG_AES_CTR, TEE_ALG_AES_CTS, TEE_ALG_AES_XTS, TEE_ALG_AES_CBC_MAC_NOPAD, TEE_ALG_AES_CBC_MAC_PKCS5, TEE_ALG_AES_CMAC, TEE_ALG_AES_CCM, TEE_ALG_AES_GCM, TEE_ALG_DES_ECB_NOPAD, TEE_ALG_DES_CBC_NOPAD, TEE_ALG_DES_CBC_MAC_NOPAD, TEE_ALG_DES_CBC_MAC_PKCS5, TEE_ALG_DES3_ECB_NOPAD, TEE_ALG_DES3_CBC_NOPAD, TEE_ALG_DES3_CBC_MAC_NOPAD, TEE_ALG_DES3_CBC_MAC_PKCS5, TEE_ALG_RSASSA_PKCS1_V1_5, TEE_ALG_RSASSA_PKCS1_V1_5_MD5, TEE_ALG_RSASSA_PKCS1_V1_5_SHA1, TEE_ALG_RSASSA_PKCS1_V1_5_SHA224, TEE_ALG_RSASSA_PKCS1_V1_5_SHA256, TEE_ALG_RSASSA_PKCS1_V1_5_SHA384, TEE_ALG_RSASSA_PKCS1_V1_5_SHA512, TEE_ALG_RSASSA_PKCS1_V1_5_MD5SHA1, TEE_ALG_RSASSA_PKCS1_PSS_MGF1_MD5, TEE_ALG_RSASSA_PKCS1_PSS_MGF1_SHA1, TEE_ALG_RSASSA_PKCS1_PSS_MGF1_SHA224, TEE_ALG_RSASSA_PKCS1_PSS_MGF1_SHA256, TEE_ALG_RSASSA_PKCS1_PSS_MGF1_SHA384, TEE_ALG_RSASSA_PKCS1_PSS_MGF1_SHA512, TEE_ALG_RSAES_PKCS1_V1_5, TEE_ALG_RSAES_PKCS1_OAEP_MGF1_MD5, TEE_ALG_RSAES_PKCS1_OAEP_MGF1_SHA1, TEE_ALG_RSAES_PKCS1_OAEP_MGF1_SHA224, TEE_ALG_RSAES_PKCS1_OAEP_MGF1_SHA256, TEE_ALG_RSAES_PKCS1_OAEP_MGF1_SHA384, TEE_ALG_RSAES_PKCS1_OAEP_MGF1_SHA512, TEE_ALG_RSA_NOPAD, TEE_ALG_DSA_SHA1, TEE_ALG_DSA_SHA224, TEE_ALG_DSA_SHA256, TEE_ALG_DH_DERIVE_SHARED_SECRET, TEE_ALG_ECDH_DERIVE_SHARED_SECRET, TEE_ALG_ECDSA_SHA1, TEE_ALG_ECDSA_SHA224, TEE_ALG_ECDSA_SHA256, TEE_ALG_ECDSA_SHA384, TEE_ALG_ECDSA_SHA512, TEE_ALG_ED25519, TEE_ALG_X25519, TEE_ALG_MD5, TEE_ALG_SHA1, TEE_ALG_SHA224, TEE_ALG_SHA256, TEE_ALG_SHA384, TEE_ALG_SHA512, TEE_ALG_MD5SHA1, TEE_ALG_HMAC_MD5, TEE_ALG_HMAC_SHA1, TEE_ALG_HMAC_SHA224, TEE_ALG_HMAC_SHA256, TEE_ALG_HMAC_SHA384, TEE_ALG_HMAC_SHA512, TEE_ALG_ILLEGAL_VALUE};
use crate::defines::TEE_SUCCESS;
use crate::error::{Error, Result, is_code_error};
use crate::object::{Attribute, GenericObject, TeeAttribute, hands_attributes, raw_attributes};

verus! {

/// The mode of a cryptographic operation.
#[derive(Clone, Copy, Debug, PartialEq, Eq, Structural)]
pub enum OperationMode {
    /// Encryption mode
    Encrypt,
    /// Decryption mode
    Decrypt,
    /// Signature generation mode
    Sign,
    /// Signature verfication mode
    Verify,
    /// MAC mode
    Mac,
    /// Digest mode
    Digest,
    /// Key derivation mode
    Derive,
    /// Reserved for testing and validation
    IllegalValue,
}

/// The value that the TEE uses for each mode.
pub open spec fn mode_code(m: OperationMode) -> u32 {
    match m {
        OperationMode::Encrypt => 0,
        OperationMode::Decrypt => 1,
        OperationMode::Sign => 2,
        OperationMode::Verify => 3,
        OperationMode::Mac => 4,
        OperationMode::Digest => 5,
        OperationMode::Derive => 6,
        OperationMode::IllegalValue => 0x7fff_ffff,
    }
}

impl OperationMode {
    /// The value that the TEE uses.
    pub fn code(&self) -> (c: u32)
        ensures
            c == mode_code(*self),
    {
        match self {
            OperationMode::Encrypt => 0,
            OperationMode::Decrypt => 1,
            OperationMode::Sign => 2,
            OperationMode::Verify => 3,
            OperationMode::Mac => 4,
            OperationMode::Digest => 5,
            OperationMode::Derive => 6,
            OperationMode::IllegalValue => 0x7fff_ffff,
        }
    }
}

/// The characteristics of an operation, as the TEE's `TEE_OperationInfo`
/// holds them.
#[derive(Clone, Copy, Debug, PartialEq, Eq, Structural)]
pub struct TeeOperationInfo {
    pub algorithm: u32,
    pub operation_class: u32,
    pub mode: u32,
    pub digest_length: u32,
    pub max_key_size: u32,
    pub key_size: u32,
    pub required_key_usage: u32,
    pub handle_state: u32,
}

/// The characteristics of an operation.
#[derive(Clone, Copy)]
pub struct OperationInfo {
    pub raw: TeeOperationInfo,
}

impl OperationInfo {
    /// The information of the raw structure.
    pub fn from_raw(raw: TeeOperationInfo) -> (i: OperationInfo)
        ensures
            i.raw == raw,
    {
        OperationInfo { raw }
    }

    /// The size of the key, if the operation uses a single key.
    pub fn key_size(&self) -> (v: u32)
        ensures
            v == self.raw.key_size,
    {
        self.raw.key_size
    }

    /// The maximum size of the key.
    pub fn max_key_size(&self) -> (v: u32)
        ensures
            v == self.raw.max_key_size,
    {
        self.raw.max_key_size
    }
}

/// The two states of an operation.
#[derive(Clone, Copy, Debug, PartialEq, Eq, Structural)]
pub enum OperationStates {
    /// Nothing is going on.
    Initial,
    /// An operation is in progress.
    Active,
}

/// The value that the TEE uses for each state.
pub open spec fn state_code(s: OperationStates) -> u32 {
    match s {
        OperationStates::Initial => 0,
        OperationStates::Active => 1,
    }
}

impl OperationStates {
    /// The value that the TEE uses.
    pub fn code(&self) -> (c: u32)
        ensures
            c == state_code(*self),
    {
        match self {
            OperationStates::Initial => 0,
            OperationStates::Active => 1,
        }
    }
}

/// The classes of operations.
#[derive(Clone, Copy, Debug, PartialEq, Eq, Structural)]
pub enum OperationConstant {
    Cipher,
    Mac,
    Ae,
    Digest,
    AsymmetricCipher,
    AsymmetricSignature,
    KeyDerivation,
}

/// The value that the TEE uses for each class.
pub open spec fn class_code(c: OperationConstant) -> u32 {
    match c {
        OperationConstant::Cipher => 1,
        OperationConstant::Mac => 3,
        OperationConstant::Ae => 4,
        OperationConstant::Digest => 5,
        OperationConstant::AsymmetricCipher => 6,
        OperationConstant::AsymmetricSignature => 7,
        OperationConstant::KeyDerivation => 8,
    }
}

impl OperationConstant {
    /// The value that the TEE uses.
    pub fn code(&self) -> (c: u32)
        ensures
            c == class_code(*self),
    {
        match self {
            OperationConstant::Cipher => 1,
            OperationConstant::Mac => 3,
            OperationConstant::Ae => 4,
            OperationConstant::Digest => 5,
            OperationConstant::AsymmetricCipher => 6,
            OperationConstant::AsymmetricSignature => 7,
            OperationConstant::KeyDerivation => 8,
        }
    }
}

/// The characteristics of an operation with several keys: the buffer that
/// the TEE filled, and the size it reported.
pub struct OperationInfoMultiple {
    raw: Vec<u8>,
    size: usize,
}

impl OperationInfoMultiple {
    pub closed spec fn spec_raw(&self) -> Seq<u8> {
        self.raw@
    }

    pub closed spec fn spec_size(&self) -> usize {
        self.size
    }

    /// The information in `raw`, of `size` bytes.
    pub fn from_raw(raw: Vec<u8>, size: usize) -> (i: OperationInfoMultiple)
        ensures
            i.spec_raw() == raw@,
            i.spec_size() == size,
    {
        OperationInfoMultiple { raw, size }
    }

    /// The information that the TEE wrote into `buffer` with `status` and
    /// `size`: the error of the status unless it is success.
    pub fn from_reply(status: u32, buffer: Vec<u8>, size: usize) -> (r: Result<OperationInfoMultiple>)
        ensures
            status == TEE_SUCCESS ==> (r matches Ok(i) && i.spec_raw() == buffer@ && i.spec_size()
                == size),
            status != TEE_SUCCESS ==> (r matches Err(e) && is_code_error(e, status)),
    {
        if status == TEE_SUCCESS {
            Ok(OperationInfoMultiple { raw: buffer, size })
        } else {
            Err(Error::from_raw_error(status))
        }
    }

    /// The buffer.
    pub fn raw(&self) -> (b: &[u8])
        ensures
            b@ == self.spec_raw(),
    {
        self.raw.as_slice()
    }

    /// The size that the TEE reported.
    pub fn size(&self) -> (v: usize)
        ensures
            v == self.spec_size(),
    {
        self.size
    }
}

/// A call of the TEE's cryptographic interface, with the values it is made
/// with.
pub enum OperationCall {
    Allocate { algorithm: u32, mode: u32, max_key_size: u32 },
    Free { handle: u64 },
    GetInfo { handle: u64 },
    GetInfoMultiple { handle: u64, capacity: usize },
    Reset { handle: u64 },
    SetKey { handle: u64, key: u64 },
    SetKey2 { handle: u64, key1: u64, key2: u64 },
    Copy { dst: u64, source: u64 },
    DigestUpdate { handle: u64, chunk: Vec<u8> },
    DigestDoFinal { handle: u64, chunk: Vec<u8>, capacity: usize },
    CipherInit { handle: u64, iv: Vec<u8> },
    CipherUpdate { handle: u64, src: Vec<u8>, capacity: usize },
    CipherDoFinal { handle: u64, src: Vec<u8>, capacity: usize },
    MacInit { handle: u64, iv: Vec<u8> },
    MacUpdate { handle: u64, chunk: Vec<u8> },
    MacComputeFinal { handle: u64, message: Vec<u8>, capacity: usize },
    MacCompareFinal { handle: u64, message: Vec<u8>, mac: Vec<u8> },
    AsymmetricEncrypt { handle: u64, params: Vec<TeeAttribute>, src: Vec<u8>, capacity: usize },
    AsymmetricDecrypt { handle: u64, params: Vec<TeeAttribute>, src: Vec<u8>, capacity: usize },
    AsymmetricSignDigest { handle: u64, params: Vec<TeeAttribute>, digest: Vec<u8>, capacity: usize },
    AsymmetricVerifyDigest { handle: u64, params: Vec<TeeAttribute>, digest: Vec<u8>, signature: Vec<u8> },
    AEInit { handle: u64, nonce: Vec<u8>, tag_len: u32, aad_len: usize, payload_len: usize },
    AEUpdateAAD { handle: u64, aad: Vec<u8> },
    AEUpdate { handle: u64, src: Vec<u8>, capacity: usize },
    AEEncryptFinal { handle: u64, src: Vec<u8>, capacity: usize, tag_capacity: usize },
    AEDecryptFinal { handle: u64, src: Vec<u8>, capacity: usize, tag: Vec<u8> },
    DeriveKey { handle: u64, params: Vec<TeeAttribute>, object: u64 },
    GenerateRandom { len: usize },
    IsAlgorithmSupported { algorithm: u32, element: u32 },
}

/// A handle on an operation; the null handle (zero) refers to none.
pub struct OperationHandle {
    raw: u64,
}

impl View for OperationHandle {
    type V = u64;

    closed spec fn view(&self) -> u64 {
        self.raw
    }
}

impl OperationHandle {
    fn from_raw(raw: u64) -> (h: OperationHandle)
        ensures
            h@ == raw,
    {
        OperationHandle { raw }
    }

    /// The raw handle.
    pub fn handle(&self) -> (h: u64)
        ensures
            h == self@,
    {
        self.raw
    }

    /// The null handle.
    pub fn null() -> (h: OperationHandle)
        ensures
            h@ == 0,
    {
        OperationHandle::from_raw(0)
    }

    /// The handle is null.
    pub fn is_null(&self) -> (b: bool)
        ensures
            b == (self@ == 0),
    {
        self.raw == 0
    }

    /// The call that allocates an operation of the algorithm and mode, for
    /// keys of at most `max_key_size` bits (the size goes to the TEE as 32
    /// bits).
    pub fn allocation(algo: AlgorithmId, mode: OperationMode, max_key_size: usize) -> (c: OperationCall)
        ensures
            c == (OperationCall::Allocate {
                algorithm: algorithm_code(algo),
                mode: mode_code(mode),
                max_key_size: max_key_size as u32,
            }),
    {
        OperationCall::Allocate {
            algorithm: algo.code(),
            mode: mode.code(),
            max_key_size: max_key_size as u32,
        }
    }

    /// The handle that the allocation returned with `status` and `handle`.
    pub fn allocate(status: u32, handle: u64) -> (r: Result<OperationHandle>)
        ensures
            status == TEE_SUCCESS ==> (r matches Ok(h) && h@ == handle),
            status != TEE_SUCCESS ==> (r matches Err(e) && is_code_error(e, status)),
    {
        if status == TEE_SUCCESS {
            Ok(OperationHandle::from_raw(handle))
        } else {
            Err(Error::from_raw_error(status))
        }
    }

    /// The call that reads the operation's information; its reply goes
    /// through `OperationInfo::from_raw`.
    pub fn info(&self) -> (c: OperationCall)
        ensures
            c == (OperationCall::GetInfo { handle: self@ }),
    {
        OperationCall::GetInfo { handle: self.raw }
    }

    /// The call that reads the information of an operation with several
    /// keys into a buffer of `capacity` bytes; its reply goes through
    /// `OperationInfoMultiple::from_reply`.
    pub fn info_multiple(&self, capacity: usize) -> (c: OperationCall)
        ensures
            c == (OperationCall::GetInfoMultiple { handle: self@, capacity }),
    {
        OperationCall::GetInfoMultiple { handle: self.raw, capacity }
    }

    /// The call that resets the operation.
    pub fn reset(&mut self) -> (c: OperationCall)
        ensures
            c == (OperationCall::Reset { handle: old(self)@ }),
            final(self)@ == old(self)@,
    {
        OperationCall::Reset { handle: self.raw }
    }

    /// The call that sets the key of the operation to the object's.
    pub fn set_key<T: GenericObject>(&self, object: &T) -> (c: OperationCall)
        ensures
            c == (OperationCall::SetKey { handle: self@, key: object.spec_handle() }),
    {
        OperationCall::SetKey { handle: self.raw, key: object.handle() }
    }

    /// The call that copies the state of `src` into this operation.
    pub fn copy<T: OpHandle>(&mut self, src: &T) -> (c: OperationCall)
        ensures
            c == (OperationCall::Copy { dst: old(self)@, source: src.spec_handle() }),
            final(self)@ == old(self)@,
    {
        OperationCall::Copy { dst: self.raw, source: src.handle() }
    }

    /// What dropping the handle asks of the TEE: to free the operation,
    /// unless the handle is null.
    pub fn free_call(&self) -> (c: Option<OperationCall>)
        ensures
            self@ == 0 ==> c is None,
            self@ != 0 ==> c == Some(OperationCall::Free { handle: self@ }),
    {
        if self.raw == 0 {
            None
        } else {
            Some(OperationCall::Free { handle: self.raw })
        }
    }
}

/// What every operation offers: its handle.
pub trait OpHandle {
    spec fn spec_handle(&self) -> u64;

    /// The raw handle.
    fn handle(&self) -> (h: u64)
        ensures
            h == self.spec_handle(),
    ;
}

/// The number of bytes that a call which fills an output buffer returned
/// with `status` and `size`: the error of the status unless it is success.
pub fn output_size(status: u32, size: usize) -> (r: Result<usize>)
    ensures
        status == TEE_SUCCESS ==> r == Ok::<usize, Error>(size),
        status != TEE_SUCCESS ==> (r matches Err(e) && is_code_error(e, status)),
{
    crate::error::value_on_success(status, size)
}

/// The call that asks whether the TEE supports the algorithm with the
/// element; its status goes through `check_status`.
pub fn is_algorithm_supported(alg_id: u32, element: u32) -> (c: OperationCall)
    ensures
        c == (OperationCall::IsAlgorithmSupported { algorithm: alg_id, element }),
{
    OperationCall::IsAlgorithmSupported { algorithm: alg_id, element }
}

/// The output that a call which fills a buffer returned with `status`, the
/// buffer and the size it reported: the error of the status unless it is
/// success, else the first `size` bytes of the buffer (all of them if it
/// reported more).
pub fn output_bytes(status: u32, buffer: Vec<u8>, size: usize) -> (r: Result<Vec<u8>>)
    ensures
        status != TEE_SUCCESS ==> (r matches Err(e) && is_code_error(e, status)),
        status == TEE_SUCCESS ==> (r matches Ok(v) && v@ == (if size <= buffer@.len() {
            buffer@.take(size as int)
        } else {
            buffer@
        })),
{
    if status == TEE_SUCCESS {
        let mut v = buffer;
        v.truncate(size);
        Ok(v)
    } else {
        Err(Error::from_raw_error(status))
    }
}

/// The sizes of the ciphertext and tag that an authenticated encryption's
/// last step returned with `status`.
pub fn encrypt_final_sizes(status: u32, dest_size: usize, tag_size: usize) -> (r: Result<(usize, usize)>)
    ensures
        status == TEE_SUCCESS ==> r == Ok::<(usize, usize), Error>((dest_size, tag_size)),
        status != TEE_SUCCESS ==> (r matches Err(e) && is_code_error(e, status)),
{
    crate::error::value_on_success(status, (dest_size, tag_size))
}

/// An operation that digests a message.
pub struct Digest(OperationHandle);

impl View for Digest {
    type V = u64;

    closed spec fn view(&self) -> u64 {
        self.0@
    }
}

impl Digest {
    /// An operation with no algorithm, on the null handle.
    pub fn null() -> (o: Digest)
        ensures
            o@ == 0,
    {
        Digest(OperationHandle::null())
    }

    /// The call that allocates the operation.
    pub fn allocation(algo: AlgorithmId) -> (c: OperationCall)
        ensures
            c == (OperationCall::Allocate {
                algorithm: algorithm_code(algo),
                mode: mode_code(OperationMode::Digest),
                max_key_size: 0u32,
            }),
    {
        OperationHandle::allocation(algo, OperationMode::Digest, 0usize)
    }

    /// The operation that the allocation returned with `status` and `handle`.
    pub fn allocate(status: u32, handle: u64) -> (r: Result<Digest>)
        ensures
            status == TEE_SUCCESS ==> (r matches Ok(o) && o@ == handle),
            status != TEE_SUCCESS ==> (r matches Err(e) && is_code_error(e, status)),
    {
        match OperationHandle::allocate(status, handle) {
            Ok(h) => Ok(Digest(h)),
            Err(e) => Err(e),
        }
    }

    /// The call that reads the operation's information.
    pub fn info(&self) -> (c: OperationCall)
        ensures
            c == (OperationCall::GetInfo { handle: self@ }),
    {
        self.0.info()
    }

    /// The call that reads the information of an operation with several
    /// keys into a buffer of `capacity` bytes.
    pub fn info_multiple(&self, capacity: usize) -> (c: OperationCall)
        ensures
            c == (OperationCall::GetInfoMultiple { handle: self@, capacity }),
    {
        self.0.info_multiple(capacity)
    }

    /// The call that resets the operation to its state after allocation,
    /// keeping its keys.
    pub fn reset(&mut self) -> (c: OperationCall)
        ensures
            c == (OperationCall::Reset { handle: old(self)@ }),
            final(self)@ == old(self)@,
    {
        self.0.reset()
    }

    /// The call that copies the state and key of `src` into this operation.
    pub fn copy<T: OpHandle>(&mut self, src: &T) -> (c: OperationCall)
        ensures
            c == (OperationCall::Copy { dst: old(self)@, source: src.spec_handle() }),
            final(self)@ == old(self)@,
    {
        self.0.copy(src)
    }

    /// What dropping the operation asks of the TEE.
    pub fn free_call(&self) -> (c: Option<OperationCall>)
        ensures
            self@ == 0 ==> c is None,
            self@ != 0 ==> c == Some(OperationCall::Free { handle: self@ }),
    {
        self.0.free_call()
    }

    /// The call that feeds a chunk of the message.
    pub fn update(&self, chunk: &[u8]) -> (c: OperationCall)
        ensures
            c matches OperationCall::DigestUpdate { handle, chunk: d } && handle == self@ && d@
                == chunk@,
    {
        OperationCall::DigestUpdate { handle: self.0.handle(), chunk: vstd::slice::slice_to_vec(chunk) }
    }

    /// The call that feeds the last chunk and writes the hash into a buffer
    /// of `capacity` bytes; its reply goes through `output_size`.
    pub fn do_final(&self, chunk: &[u8], capacity: usize) -> (c: OperationCall)
        ensures
            c matches OperationCall::DigestDoFinal { handle, chunk: d, capacity: n } && handle
                == self@ && d@ == chunk@ && n == capacity,
    {
        OperationCall::DigestDoFinal {
            handle: self.0.handle(),
            chunk: vstd::slice::slice_to_vec(chunk),
            capacity,
        }
    }

}

impl OpHandle for Digest {
    open spec fn spec_handle(&self) -> u64 {
        self@
    }

    fn handle(&self) -> (h: u64) {
        self.0.handle()
    }
}

/// A symmetric cipher operation, for encryption or decryption.
pub struct Cipher(OperationHandle);

impl View for Cipher {
    type V = u64;

    closed spec fn view(&self) -> u64 {
        self.0@
    }
}

impl Cipher {
    /// An operation with no algorithm, on the null handle.
    pub fn null() -> (o: Cipher)
        ensures
            o@ == 0,
    {
        Cipher(OperationHandle::null())
    }

    /// The call that allocates the operation.
    pub fn allocation(algo: AlgorithmId, mode: OperationMode, max_key_size: usize) -> (c: OperationCall)
        ensures
            c == (OperationCall::Allocate {
                algorithm: algorithm_code(algo),
                mode: mode_code(mode),
                max_key_size: max_key_size as u32,
            }),
    {
        OperationHandle::allocation(algo, mode, max_key_size)
    }

    /// The operation that the allocation returned with `status` and `handle`.
    pub fn allocate(status: u32, handle: u64) -> (r: Result<Cipher>)
        ensures
            status == TEE_SUCCESS ==> (r matches Ok(o) && o@ == handle),
            status != TEE_SUCCESS ==> (r matches Err(e) && is_code_error(e, status)),
    {
        match OperationHandle::allocate(status, handle) {
            Ok(h) => Ok(Cipher(h)),
            Err(e) => Err(e),
        }
    }

    /// The call that reads the operation's information.
    pub fn info(&self) -> (c: OperationCall)
        ensures
            c == (OperationCall::GetInfo { handle: self@ }),
    {
        self.0.info()
    }

    /// The call that reads the information of an operation with several
    /// keys into a buffer of `capacity` bytes.
    pub fn info_multiple(&self, capacity: usize) -> (c: OperationCall)
        ensures
            c == (OperationCall::GetInfoMultiple { handle: self@, capacity }),
    {
        self.0.info_multiple(capacity)
    }

    /// The call that sets the key of the operation to the object's.
    pub fn set_key<T: GenericObject>(&self, object: &T) -> (c: OperationCall)
        ensures
            c == (OperationCall::SetKey { handle: self@, key: object.spec_handle() }),
    {
        self.0.set_key(object)
    }

    /// The call that copies the state and key of `src` into this operation.
    pub fn copy<T: OpHandle>(&mut self, src: &T) -> (c: OperationCall)
        ensures
            c == (OperationCall::Copy { dst: old(self)@, source: src.spec_handle() }),
            final(self)@ == old(self)@,
    {
        self.0.copy(src)
    }

    /// What dropping the operation asks of the TEE.
    pub fn free_call(&self) -> (c: Option<OperationCall>)
        ensures
            self@ == 0 ==> c is None,
            self@ != 0 ==> c == Some(OperationCall::Free { handle: self@ }),
    {
        self.0.free_call()
    }

    /// The call that starts the operation with the initialization vector.
    pub fn init(&self, iv: &[u8]) -> (c: OperationCall)
        ensures
            c matches OperationCall::CipherInit { handle, iv: v } && handle == self@ && v@ == iv@,
    {
        OperationCall::CipherInit { handle: self.0.handle(), iv: vstd::slice::slice_to_vec(iv) }
    }

    /// The call that encrypts or decrypts `src` into a buffer of `capacity`
    /// bytes; its reply goes through `output_size`.
    pub fn update(&self, src: &[u8], capacity: usize) -> (c: OperationCall)
        ensures
            c matches OperationCall::CipherUpdate { handle, src: d, capacity: n } && handle
                == self@ && d@ == src@ && n == capacity,
    {
        OperationCall::CipherUpdate {
            handle: self.0.handle(),
            src: vstd::slice::slice_to_vec(src),
            capacity,
        }
    }

    /// The call that finishes the operation with `src`, into a buffer of
    /// `capacity` bytes; its reply goes through `output_size`.
    pub fn do_final(&self, src: &[u8], capacity: usize) -> (c: OperationCall)
        ensures
            c matches OperationCall::CipherDoFinal { handle, src: d, capacity: n } && handle
                == self@ && d@ == src@ && n == capacity,
    {
        OperationCall::CipherDoFinal {
            handle: self.0.handle(),
            src: vstd::slice::slice_to_vec(src),
            capacity,
        }
    }

    /// The call that sets two keys, for algorithms that take two.
    pub fn set_key_2<T: GenericObject, D: GenericObject>(&self, object1: &T, object2: &D) -> (c:
        OperationCall)
        ensures
            c == (OperationCall::SetKey2 {
                handle: self@,
                key1: object1.spec_handle(),
                key2: object2.spec_handle(),
            }),
    {
        OperationCall::SetKey2 {
            handle: self.0.handle(),
            key1: object1.handle(),
            key2: object2.handle(),
        }
    }

}

impl OpHandle for Cipher {
    open spec fn spec_handle(&self) -> u64 {
        self@
    }

    fn handle(&self) -> (h: u64) {
        self.0.handle()
    }
}

/// An operation that computes or checks a message authentication code.
pub struct Mac(OperationHandle);

impl View for Mac {
    type V = u64;

    closed spec fn view(&self) -> u64 {
        self.0@
    }
}

impl Mac {
    /// An operation with no algorithm, on the null handle.
    pub fn null() -> (o: Mac)
        ensures
            o@ == 0,
    {
        Mac(OperationHandle::null())
    }

    /// The call that allocates the operation.
    pub fn allocation(algo: AlgorithmId, max_key_size: usize) -> (c: OperationCall)
        ensures
            c == (OperationCall::Allocate {
                algorithm: algorithm_code(algo),
                mode: mode_code(OperationMode::Mac),
                max_key_size: max_key_size as u32,
            }),
    {
        OperationHandle::allocation(algo, OperationMode::Mac, max_key_size)
    }

    /// The operation that the allocation returned with `status` and `handle`.
    pub fn allocate(status: u32, handle: u64) -> (r: Result<Mac>)
        ensures
            status == TEE_SUCCESS ==> (r matches Ok(o) && o@ == handle),
            status != TEE_SUCCESS ==> (r matches Err(e) && is_code_error(e, status)),
    {
        match OperationHandle::allocate(status, handle) {
            Ok(h) => Ok(Mac(h)),
            Err(e) => Err(e),
        }
    }

    /// The call that reads the operation's information.
    pub fn info(&self) -> (c: OperationCall)
        ensures
            c == (OperationCall::GetInfo { handle: self@ }),
    {
        self.0.info()
    }

    /// The call that reads the information of an operation with several
    /// keys into a buffer of `capacity` bytes.
    pub fn info_multiple(&self, capacity: usize) -> (c: OperationCall)
        ensures
            c == (OperationCall::GetInfoMultiple { handle: self@, capacity }),
    {
        self.0.info_multiple(capacity)
    }

    /// The call that resets the operation to its state after allocation,
    /// keeping its keys.
    pub fn reset(&mut self) -> (c: OperationCall)
        ensures
            c == (OperationCall::Reset { handle: old(self)@ }),
            final(self)@ == old(self)@,
    {
        self.0.reset()
    }

    /// The call that sets the key of the operation to the object's.
    pub fn set_key<T: GenericObject>(&self, object: &T) -> (c: OperationCall)
        ensures
            c == (OperationCall::SetKey { handle: self@, key: object.spec_handle() }),
    {
        self.0.set_key(object)
    }

    /// The call that copies the state and key of `src` into this operation.
    pub fn copy<T: OpHandle>(&mut self, src: &T) -> (c: OperationCall)
        ensures
            c == (OperationCall::Copy { dst: old(self)@, source: src.spec_handle() }),
            final(self)@ == old(self)@,
    {
        self.0.copy(src)
    }

    /// What dropping the operation asks of the TEE.
    pub fn free_call(&self) -> (c: Option<OperationCall>)
        ensures
            self@ == 0 ==> c is None,
            self@ != 0 ==> c == Some(OperationCall::Free { handle: self@ }),
    {
        self.0.free_call()
    }

    /// The call that starts the operation with the initialization vector.
    pub fn init(&self, iv: &[u8]) -> (c: OperationCall)
        ensures
            c matches OperationCall::MacInit { handle, iv: v } && handle == self@ && v@ == iv@,
    {
        OperationCall::MacInit { handle: self.0.handle(), iv: vstd::slice::slice_to_vec(iv) }
    }

    /// The call that feeds a chunk of the message.
    pub fn update(&self, chunk: &[u8]) -> (c: OperationCall)
        ensures
            c matches OperationCall::MacUpdate { handle, chunk: d } && handle == self@ && d@
                == chunk@,
    {
        OperationCall::MacUpdate { handle: self.0.handle(), chunk: vstd::slice::slice_to_vec(chunk) }
    }

    /// The call that finishes the message and writes the MAC into a buffer
    /// of `capacity` bytes; its reply goes through `output_size`.
    pub fn compute_final(&self, message: &[u8], capacity: usize) -> (c: OperationCall)
        ensures
            c matches OperationCall::MacComputeFinal { handle, message: d, capacity: n } && handle
                == self@ && d@ == message@ && n == capacity,
    {
        OperationCall::MacComputeFinal {
            handle: self.0.handle(),
            message: vstd::slice::slice_to_vec(message),
            capacity,
        }
    }

    /// The call that finishes the message and compares its MAC with `mac`;
    /// its status goes through `check_status`.
    pub fn compare_final(&self, message: &[u8], mac: &[u8]) -> (c: OperationCall)
        ensures
            c matches OperationCall::MacCompareFinal { handle, message: d, mac: m } && handle
                == self@ && d@ == message@ && m@ == mac@,
    {
        OperationCall::MacCompareFinal {
            handle: self.0.handle(),
            message: vstd::slice::slice_to_vec(message),
            mac: vstd::slice::slice_to_vec(mac),
        }
    }

}

impl OpHandle for Mac {
    open spec fn spec_handle(&self) -> u64 {
        self@
    }

    fn handle(&self) -> (h: u64) {
        self.0.handle()
    }
}

/// An authenticated encryption operation.
pub struct AE(OperationHandle);

impl View for AE {
    type V = u64;

    closed spec fn view(&self) -> u64 {
        self.0@
    }
}

impl AE {
    /// An operation with no algorithm, on the null handle.
    pub fn null() -> (o: AE)
        ensures
            o@ == 0,
    {
        AE(OperationHandle::null())
    }

    /// The call that allocates the operation.
    pub fn allocation(algo: AlgorithmId, mode: OperationMode, max_key_size: usize) -> (c: OperationCall)
        ensures
            c == (OperationCall::Allocate {
                algorithm: algorithm_code(algo),
                mode: mode_code(mode),
                max_key_size: max_key_size as u32,
            }),
    {
        OperationHandle::allocation(algo, mode, max_key_size)
    }

    /// The operation that the allocation returned with `status` and `handle`.
    pub fn allocate(status: u32, handle: u64) -> (r: Result<AE>)
        ensures
            status == TEE_SUCCESS ==> (r matches Ok(o) && o@ == handle),
            status != TEE_SUCCESS ==> (r matches Err(e) && is_code_error(e, status)),
    {
        match OperationHandle::allocate(status, handle) {
            Ok(h) => Ok(AE(h)),
            Err(e) => Err(e),
        }
    }

    /// The call that reads the operation's information.
    pub fn info(&self) -> (c: OperationCall)
        ensures
            c == (OperationCall::GetInfo { handle: self@ }),
    {
        self.0.info()
    }

    /// The call that reads the information of an operation with several
    /// keys into a buffer of `capacity` bytes.
    pub fn info_multiple(&self, capacity: usize) -> (c: OperationCall)
        ensures
            c == (OperationCall::GetInfoMultiple { handle: self@, capacity }),
    {
        self.0.info_multiple(capacity)
    }

    /// The call that resets the operation to its state after allocation,
    /// keeping its keys.
    pub fn reset(&mut self) -> (c: OperationCall)
        ensures
            c == (OperationCall::Reset { handle: old(self)@ }),
            final(self)@ == old(self)@,
    {
        self.0.reset()
    }

    /// The call that sets the key of the operation to the object's.
    pub fn set_key<T: GenericObject>(&self, object: &T) -> (c: OperationCall)
        ensures
            c == (OperationCall::SetKey { handle: self@, key: object.spec_handle() }),
    {
        self.0.set_key(object)
    }

    /// The call that copies the state and key of `src` into this operation.
    pub fn copy<T: OpHandle>(&mut self, src: &T) -> (c: OperationCall)
        ensures
            c == (OperationCall::Copy { dst: old(self)@, source: src.spec_handle() }),
            final(self)@ == old(self)@,
    {
        self.0.copy(src)
    }

    /// What dropping the operation asks of the TEE.
    pub fn free_call(&self) -> (c: Option<OperationCall>)
        ensures
            self@ == 0 ==> c is None,
            self@ != 0 ==> c == Some(OperationCall::Free { handle: self@ }),
    {
        self.0.free_call()
    }

    /// The call that starts the operation with the nonce and the lengths of
    /// the tag (in bits, as 32 bits), the additional data and the payload;
    /// its status goes through `check_status`.
    pub fn init(&self, nonce: &[u8], tag_len: usize, aad_len: usize, pay_load_len: usize) -> (c:
        OperationCall)
        ensures
            c matches OperationCall::AEInit { handle, nonce: n, tag_len: t, aad_len: a, payload_len: p }
                && handle == self@ && n@ == nonce@ && t == tag_len as u32 && a == aad_len && p
                == pay_load_len,
    {
        OperationCall::AEInit {
            handle: self.0.handle(),
            nonce: vstd::slice::slice_to_vec(nonce),
            tag_len: tag_len as u32,
            aad_len,
            payload_len: pay_load_len,
        }
    }

    /// The call that feeds additional authenticated data.
    pub fn update_aad(&self, aad_data: &[u8]) -> (c: OperationCall)
        ensures
            c matches OperationCall::AEUpdateAAD { handle, aad } && handle == self@ && aad@ == aad_data@,
    {
        OperationCall::AEUpdateAAD { handle: self.0.handle(), aad: vstd::slice::slice_to_vec(aad_data) }
    }

    /// The call that encrypts or decrypts `src` into a buffer of `capacity`
    /// bytes; its reply goes through `output_size`.
    pub fn update(&self, src: &[u8], capacity: usize) -> (c: OperationCall)
        ensures
            c matches OperationCall::AEUpdate { handle, src: d, capacity: n } && handle == self@ && d@
                == src@ && n == capacity,
    {
        OperationCall::AEUpdate { handle: self.0.handle(), src: vstd::slice::slice_to_vec(src), capacity }
    }

    /// The call that finishes an encryption with `src`, into a buffer of
    /// `capacity` bytes and a tag of `tag_capacity` bytes; its reply goes
    /// through `encrypt_final_sizes`.
    pub fn encrypt_final(&self, src: &[u8], capacity: usize, tag_capacity: usize) -> (c: OperationCall)
        ensures
            c matches OperationCall::AEEncryptFinal { handle, src: d, capacity: n, tag_capacity: t }
                && handle == self@ && d@ == src@ && n == capacity && t == tag_capacity,
    {
        OperationCall::AEEncryptFinal {
            handle: self.0.handle(),
            src: vstd::slice::slice_to_vec(src),
            capacity,
            tag_capacity,
        }
    }

    /// The call that finishes a decryption with `src` and checks the tag,
    /// into a buffer of `capacity` bytes; its reply goes through
    /// `output_size`.
    pub fn decrypt_final(&self, src: &[u8], capacity: usize, tag: &[u8]) -> (c: OperationCall)
        ensures
            c matches OperationCall::AEDecryptFinal { handle, src: d, capacity: n, tag: t } && handle
                == self@ && d@ == src@ && n == capacity && t@ == tag@,
    {
        OperationCall::AEDecryptFinal {
            handle: self.0.handle(),
            src: vstd::slice::slice_to_vec(src),
            capacity,
            tag: vstd::slice::slice_to_vec(tag),
        }
    }
}

impl OpHandle for AE {
    open spec fn spec_handle(&self) -> u64 {
        self@
    }

    fn handle(&self) -> (h: u64) {
        self.0.handle()
    }
}

/// An asymmetric operation: encryption, decryption, signing or verifying.
pub struct Asymmetric(OperationHandle);

impl View for Asymmetric {
    type V = u64;

    closed spec fn view(&self) -> u64 {
        self.0@
    }
}

impl Asymmetric {
    /// An operation with no algorithm, on the null handle.
    pub fn null() -> (o: Asymmetric)
        ensures
            o@ == 0,
    {
        Asymmetric(OperationHandle::null())
    }

    /// The call that allocates the operation.
    pub fn allocation(algo: AlgorithmId, mode: OperationMode, max_key_size: usize) -> (c: OperationCall)
        ensures
            c == (OperationCall::Allocate {
                algorithm: algorithm_code(algo),
                mode: mode_code(mode),
                max_key_size: max_key_size as u32,
            }),
    {
        OperationHandle::allocation(algo, mode, max_key_size)
    }

    /// The operation that the allocation returned with `status` and `handle`.
    pub fn allocate(status: u32, handle: u64) -> (r: Result<Asymmetric>)
        ensures
            status == TEE_SUCCESS ==> (r matches Ok(o) && o@ == handle),
            status != TEE_SUCCESS ==> (r matches Err(e) && is_code_error(e, status)),
    {
        match OperationHandle::allocate(status, handle) {
            Ok(h) => Ok(Asymmetric(h)),
            Err(e) => Err(e),
        }
    }

    /// The call that reads the operation's information.
    pub fn info(&self) -> (c: OperationCall)
        ensures
            c == (OperationCall::GetInfo { handle: self@ }),
    {
        self.0.info()
    }

    /// The call that reads the information of an operation with several
    /// keys into a buffer of `capacity` bytes.
    pub fn info_multiple(&self, capacity: usize) -> (c: OperationCall)
        ensures
            c == (OperationCall::GetInfoMultiple { handle: self@, capacity }),
    {
        self.0.info_multiple(capacity)
    }

    /// The call that sets the key of the operation to the object's.
    pub fn set_key<T: GenericObject>(&self, object: &T) -> (c: OperationCall)
        ensures
            c == (OperationCall::SetKey { handle: self@, key: object.spec_handle() }),
    {
        self.0.set_key(object)
    }

    /// The call that copies the state and key of `src` into this operation.
    pub fn copy<T: OpHandle>(&mut self, src: &T) -> (c: OperationCall)
        ensures
            c == (OperationCall::Copy { dst: old(self)@, source: src.spec_handle() }),
            final(self)@ == old(self)@,
    {
        self.0.copy(src)
    }

    /// What dropping the operation asks of the TEE.
    pub fn free_call(&self) -> (c: Option<OperationCall>)
        ensures
            self@ == 0 ==> c is None,
            self@ != 0 ==> c == Some(OperationCall::Free { handle: self@ }),
    {
        self.0.free_call()
    }

    /// The call that encrypts `src` with the parameters, into a buffer of
    /// `capacity` bytes (the key size that the operation's information
    /// gives); its reply goes through `output_bytes`.
    pub fn encrypt(&self, params: &[Attribute], src: &[u8], capacity: usize) -> (c: OperationCall)
        ensures
            c matches OperationCall::AsymmetricEncrypt { handle, params: p, src: d, capacity: n }
                && handle == self@ && hands_attributes(p@, params@) && d@ == src@ && n == capacity,
    {
        OperationCall::AsymmetricEncrypt {
            handle: self.0.handle(),
            params: raw_attributes(params),
            src: vstd::slice::slice_to_vec(src),
            capacity,
        }
    }

    /// The call that signs the digest with the parameters, into a buffer of
    /// `capacity` bytes; its reply goes through `output_size`.
    pub fn sign_digest(&self, params: &[Attribute], digest: &[u8], capacity: usize) -> (c: OperationCall)
        ensures
            c matches OperationCall::AsymmetricSignDigest { handle, params: p, digest: d, capacity: n }
                && handle == self@ && hands_attributes(p@, params@) && d@ == digest@ && n == capacity,
    {
        OperationCall::AsymmetricSignDigest {
            handle: self.0.handle(),
            params: raw_attributes(params),
            digest: vstd::slice::slice_to_vec(digest),
            capacity,
        }
    }

    /// The call that checks the signature of the digest with the
    /// parameters; its status goes through `check_status`.
    pub fn verify_digest(&self, params: &[Attribute], digest: &[u8], signature: &[u8]) -> (c: OperationCall)
        ensures
            c matches OperationCall::AsymmetricVerifyDigest { handle, params: p, digest: d, signature: g }
                && handle == self@ && hands_attributes(p@, params@) && d@ == digest@ && g@ == signature@,
    {
        OperationCall::AsymmetricVerifyDigest {
            handle: self.0.handle(),
            params: raw_attributes(params),
            digest: vstd::slice::slice_to_vec(digest),
            signature: vstd::slice::slice_to_vec(signature),
        }
    }

    /// The call that decrypts `src` with the parameters, into a buffer of
    /// `capacity` bytes (the key size that the operation's information
    /// gives); its reply goes through `output_bytes`.
    pub fn decrypt(&self, params: &[Attribute], src: &[u8], capacity: usize) -> (c: OperationCall)
        ensures
            c matches OperationCall::AsymmetricDecrypt { handle, params: p, src: d, capacity: n }
                && handle == self@ && hands_attributes(p@, params@) && d@ == src@ && n == capacity,
    {
        OperationCall::AsymmetricDecrypt {
            handle: self.0.handle(),
            params: raw_attributes(params),
            src: vstd::slice::slice_to_vec(src),
            capacity,
        }
    }

}

impl OpHandle for Asymmetric {
    open spec fn spec_handle(&self) -> u64 {
        self@
    }

    fn handle(&self) -> (h: u64) {
        self.0.handle()
    }
}

/// An operation that derives a key.
pub struct DeriveKey(OperationHandle);

impl View for DeriveKey {
    type V = u64;

    closed spec fn view(&self) -> u64 {
        self.0@
    }
}

impl DeriveKey {
    /// An operation with no algorithm, on the null handle.
    pub fn null() -> (o: DeriveKey)
        ensures
            o@ == 0,
    {
        DeriveKey(OperationHandle::null())
    }

    /// The call that allocates the operation.
    pub fn allocation(algo: AlgorithmId, max_key_size: usize) -> (c: OperationCall)
        ensures
            c == (OperationCall::Allocate {
                algorithm: algorithm_code(algo),
                mode: mode_code(OperationMode::Derive),
                max_key_size: max_key_size as u32,
            }),
    {
        OperationHandle::allocation(algo, OperationMode::Derive, max_key_size)
    }

    /// The operation that the allocation returned with `status` and `handle`.
    pub fn allocate(status: u32, handle: u64) -> (r: Result<DeriveKey>)
        ensures
            status == TEE_SUCCESS ==> (r matches Ok(o) && o@ == handle),
            status != TEE_SUCCESS ==> (r matches Err(e) && is_code_error(e, status)),
    {
        match OperationHandle::allocate(status, handle) {
            Ok(h) => Ok(DeriveKey(h)),
            Err(e) => Err(e),
        }
    }

    /// The call that reads the operation's information.
    pub fn info(&self) -> (c: OperationCall)
        ensures
            c == (OperationCall::GetInfo { handle: self@ }),
    {
        self.0.info()
    }

    /// The call that reads the information of an operation with several
    /// keys into a buffer of `capacity` bytes.
    pub fn info_multiple(&self, capacity: usize) -> (c: OperationCall)
        ensures
            c == (OperationCall::GetInfoMultiple { handle: self@, capacity }),
    {
        self.0.info_multiple(capacity)
    }

    /// The call that sets the key of the operation to the object's.
    pub fn set_key<T: GenericObject>(&self, object: &T) -> (c: OperationCall)
        ensures
            c == (OperationCall::SetKey { handle: self@, key: object.spec_handle() }),
    {
        self.0.set_key(object)
    }

    /// The call that copies the state and key of `src` into this operation.
    pub fn copy<T: OpHandle>(&mut self, src: &T) -> (c: OperationCall)
        ensures
            c == (OperationCall::Copy { dst: old(self)@, source: src.spec_handle() }),
            final(self)@ == old(self)@,
    {
        self.0.copy(src)
    }

    /// What dropping the operation asks of the TEE.
    pub fn free_call(&self) -> (c: Option<OperationCall>)
        ensures
            self@ == 0 ==> c is None,
            self@ != 0 ==> c == Some(OperationCall::Free { handle: self@ }),
    {
        self.0.free_call()
    }

    /// The call that derives a key with the parameters into the object.
    pub fn derive<T: GenericObject>(&self, params: &[Attribute], object: &T) -> (c: OperationCall)
        ensures
            c matches OperationCall::DeriveKey { handle, params: p, object: o } && handle == self@
                && hands_attributes(p@, params@) && o == object.spec_handle(),
    {
        OperationCall::DeriveKey {
            handle: self.0.handle(),
            params: raw_attributes(params),
            object: object.handle(),
        }
    }

}

impl OpHandle for DeriveKey {
    open spec fn spec_handle(&self) -> u64 {
        self@
    }

    fn handle(&self) -> (h: u64) {
        self.0.handle()
    }
}

/// Random data, generated by the TEE.
pub struct Random;

impl Random {
    /// The call that fills a buffer of `len` bytes with random data.
    pub fn generate(len: usize) -> (c: OperationCall)
        ensures
            c == (OperationCall::GenerateRandom { len }),
    {
        OperationCall::GenerateRandom { len }
    }
}

#[derive(Clone, Copy, Debug, PartialEq, Eq, Structural)]
pub enum AlgorithmId {
    /// [Cipher](Cipher) supported algorithm.
    AesEcbNopad,
    /// [Cipher](Cipher) supported algorithm.
    AesCbcNopad,
    /// [Cipher](Cipher) supported algorithm.
    AesCtr,
    /// [Cipher](Cipher) supported algorithm.
    AesCts,
    /// [Cipher](Cipher) supported algorithm.
    AesXts,
    /// [Mac](Mac) supported algorithm.
    AesCbcMacNopad,
    /// [Mac](Mac) supported algorithm.
    AesCbcMacPkcs5,
    /// [Mac](Mac) supported algorithm.
    AesCmac,
    /// [AE](AE) supported algorithm.
    AesCcm,
    /// [AE](AE) supported algorithm.
    AesGcm,
    /// [Cipher](Cipher) supported algorithm.
    DesEcbNopad,
    /// [Cipher](Cipher) supported algorithm.
    DesCbcNopad,
    /// [Mac](Mac) supported algorithm.
    DesCbcMacNopad,
    /// [Mac](Mac) supported algorithm.
    DesCbcMacPkcs5,
    /// [Cipher](Cipher) supported algorithm.
    Des3EcbNopad,
    /// [Cipher](Cipher) supported algorithm.
    Des3CbcNopad,
    /// [Mac](Mac) supported algorithm.
    Des3CbcMacNopad,
    /// [Mac](Mac) supported algorithm.
    Des3CbcMacPkcs5,
    /// [Asymmetric](Asymmetric) supported algorithm, can be applied with
    /// [Sign](OperationMode::Sign) or [Verify](OperationMode::Verify) mode.
    RsassaPkcs1V15,
    /// [Asymmetric](Asymmetric) supported algorithm, can be applied with
    /// [Sign](OperationMode::Sign) or [Verify](OperationMode::Verify) mode.
    RsassaPkcs1V15MD5,
    /// [Asymmetric](Asymmetric) supported algorithm, can be applied with
    /// [Sign](OperationMode::Sign) or [Verify](OperationMode::Verify) mode.
    RsassaPkcs1V15Sha1,
    /// [Asymmetric](Asymmetric) supported algorithm, can be applied with
    /// [Sign](OperationMode::Sign) or [Verify](OperationMode::Verify) mode.
    RsassaPkcs1V15Sha224,
    /// [Asymmetric](Asymmetric) supported algorithm, can be applied with
    /// [Sign](OperationMode::Sign) or [Verify](OperationMode::Verify) mode.
    RsassaPkcs1V15Sha256,
    /// [Asymmetric](Asymmetric) supported algorithm, can be applied with
    /// [Sign](OperationMode::Sign) or [Verify](OperationMode::Verify) mode.
    RsassaPkcs1V15Sha384,
    /// [Asymmetric](Asymmetric) supported algorithm, can be applied with
    /// [Sign](OperationMode::Sign) or [Verify](OperationMode::Verify) mode.
    RsassaPkcs1V15Sha512,
    /// [Asymmetric](Asymmetric) supported algorithm, can be applied with
    /// [Sign](OperationMode::Sign) or [Verify](OperationMode::Verify) mode.
    RsassaPkcs1V15MD5Sha1,
    /// [Asymmetric](Asymmetric) supported algorithm, can be applied with
    /// [Sign](OperationMode::Sign) or [Verify](OperationMode::Verify) mode.
    RsassaPkcs1PssMgf1MD5,
    /// [Asymmetric](Asymmetric) supported algorithm, can be applied with
    /// [Sign](OperationMode::Sign) or [Verify](OperationMode::Verify) mode.
    RsassaPkcs1PssMgf1Sha1,
    /// [Asymmetric](Asymmetric) supported algorithm, can be applied with
    /// [Sign](OperationMode::Sign) or [Verify](OperationMode::Verify) mode.
    RsassaPkcs1PssMgf1Sha224,
    /// [Asymmetric](Asymmetric) supported algorithm, can be applied with
    /// [Sign](OperationMode::Sign) or [Verify](OperationMode::Verify) mode.
    RsassaPkcs1PssMgf1Sha256,
    /// [Asymmetric](Asymmetric) supported algorithm, can be applied with
    /// [Sign](OperationMode::Sign) or [Verify](OperationMode::Verify) mode.
    RsassaPkcs1PssMgf1Sha384,
    /// [Asymmetric](Asymmetric) supported algorithm, can be applied with
    /// [Sign](OperationMode::Sign) or [Verify](OperationMode::Verify) mode.
    RsassaPkcs1PssMgf1Sha512,
    /// [Asymmetric](Asymmetric) supported algorithm, can be applied with
    /// [Encrypt](OperationMode::Encrypt) or [Decrypt](OperationMode::Decrypt) mode.
    RsaesPkcs1V15,
    /// [Asymmetric](Asymmetric) supported algorithm, can be applied with
    /// [Encrypt](OperationMode::Encrypt) or [Decrypt](OperationMode::Decrypt) mode.
    RsaesPkcs1OAepMgf1MD5,
    /// [Asymmetric](Asymmetric) supported algorithm, can be applied with
    /// [Encrypt](OperationMode::Encrypt) or [Decrypt](OperationMode::Decrypt) mode.
    RsaesPkcs1OAepMgf1Sha1,
    /// [Asymmetric](Asymmetric) supported algorithm, can be applied with
    /// [Encrypt](OperationMode::Encrypt) or [Decrypt](OperationMode::Decrypt) mode.
    RsaesPkcs1OAepMgf1Sha224,
    /// [Asymmetric](Asymmetric) supported algorithm, can be applied with
    /// [Encrypt](OperationMode::Encrypt) or [Decrypt](OperationMode::Decrypt) mode.
    RsaesPkcs1OAepMgf1Sha256,
    /// [Asymmetric](Asymmetric) supported algorithm, can be applied with
    /// [Encrypt](OperationMode::Encrypt) or [Decrypt](OperationMode::Decrypt) mode.
    RsaesPkcs1OAepMgf1Sha384,
    /// [Asymmetric](Asymmetric) supported algorithm, can be applied with
    /// [Encrypt](OperationMode::Encrypt) or [Decrypt](OperationMode::Decrypt) mode.
    RsaesPkcs1OAepMgf1Sha512,
    /// [Asymmetric](Asymmetric) supported algorithm, can be applied with
    /// [Encrypt](OperationMode::Encrypt) or [Decrypt](OperationMode::Decrypt) mode.
    RsaNopad,
    /// [Asymmetric](Asymmetric) supported algorithm, can be applied with
    /// [Sign](OperationMode::Sign) or [Verify](OperationMode::Verify) mode.
    DSASha1,
    /// [Asymmetric](Asymmetric) supported algorithm, can be applied with
    /// [Sign](OperationMode::Sign) or [Verify](OperationMode::Verify) mode.
    DSASha224,
    /// [Asymmetric](Asymmetric) supported algorithm, can be applied with
    /// [Sign](OperationMode::Sign) or [Verify](OperationMode::Verify) mode.
    DSASha256,
    /// [DeriveKey](DeriveKey) supported algorithm.
    DhDeriveSharedSecret,
    /// [DeriveKey](DeriveKey) supported algorithm.
    EcDhDeriveSharedSecret,
    /// [Asymmetric](Asymmetric) supported algorithm, can be applied with
    /// [Sign](OperationMode::Sign) or [Verify](OperationMode::Verify) mode.
    EcDsaSha1,
    /// [Asymmetric](Asymmetric) supported algorithm, can be applied with
    /// [Sign](OperationMode::Sign) or [Verify](OperationMode::Verify) mode.
    EcDsaSha224,
    /// [Asymmetric](Asymmetric) supported algorithm, can be applied with
    /// [Sign](OperationMode::Sign) or [Verify](OperationMode::Verify) mode.
    EcDsaSha256,
    /// [Asymmetric](Asymmetric) supported algorithm, can be applied with
    /// [Sign](OperationMode::Sign) or [Verify](OperationMode::Verify) mode.
    EcDsaSha384,
    /// [Asymmetric](Asymmetric) supported algorithm, can be applied with
    /// [Sign](OperationMode::Sign) or [Verify](OperationMode::Verify) mode.
    EcDsaSha512,
    /// [Asymmetric](Asymmetric) supported algorithm, can be applied with
    /// [Sign](OperationMode::Sign) or [Verify](OperationMode::Verify) mode.
    Ed25519,
    /// [DeriveKey](DeriveKey) supported algorithm.
    X25519,
    /// [Digest](Digest) supported algorithm.
    Md5,
    /// [Digest](Digest) supported algorithm.
    Sha1,
    /// [Digest](Digest) supported algorithm.
    Sha224,
    /// [Digest](Digest) supported algorithm.
    Sha256,
    /// [Digest](Digest) supported algorithm.
    Sha384,
    /// [Digest](Digest) supported algorithm.
    Sha512,
    /// [Mac](Mac) supported algorithm.
    Md5Sha1,
    /// [Mac](Mac) supported algorithm.
    HmacMd5,
    /// [Mac](Mac) supported algorithm.
    HmacSha1,
    /// [Mac](Mac) supported algorithm.
    HmacSha224,
    /// [Mac](Mac) supported algorithm.
    HmacSha256,
    /// [Mac](Mac) supported algorithm.
    HmacSha384,
    /// [Mac](Mac) supported algorithm.
    HmacSha512,
    /// Reserved for GlobalPlatform compliance test applications.
    IllegalValue,
}

/// The identifier that the TEE uses for each value.
pub open spec fn algorithm_code(v: AlgorithmId) -> u32 {
    match v {
        AlgorithmId::AesEcbNopad => 0x10000010,
        AlgorithmId::AesCbcNopad => 0x10000110,
        AlgorithmId::AesCtr => 0x10000210,
        AlgorithmId::AesCts => 0x10000310,
        AlgorithmId::AesXts => 0x10000410,
        AlgorithmId::AesCbcMacNopad => 0x30000110,
        AlgorithmId::AesCbcMacPkcs5 => 0x30000510,
        AlgorithmId::AesCmac => 0x30000610,
        AlgorithmId::AesCcm => 0x40000710,
        AlgorithmId::AesGcm => 0x40000810,
        AlgorithmId::DesEcbNopad => 0x10000011,
        AlgorithmId::DesCbcNopad => 0x10000111,
        AlgorithmId::DesCbcMacNopad => 0x30000111,
        AlgorithmId::DesCbcMacPkcs5 => 0x30000511,
        AlgorithmId::Des3EcbNopad => 0x10000013,
        AlgorithmId::Des3CbcNopad => 0x10000113,
        AlgorithmId::Des3CbcMacNopad => 0x30000113,
        AlgorithmId::Des3CbcMacPkcs5 => 0x30000513,
        AlgorithmId::RsassaPkcs1V15 => 0xf0000830,
        AlgorithmId::RsassaPkcs1V15MD5 => 0x70001830,
        AlgorithmId::RsassaPkcs1V15Sha1 => 0x70002830,
        AlgorithmId::RsassaPkcs1V15Sha224 => 0x70003830,
        AlgorithmId::RsassaPkcs1V15Sha256 => 0x70004830,
        AlgorithmId::RsassaPkcs1V15Sha384 => 0x70005830,
        AlgorithmId::RsassaPkcs1V15Sha512 => 0x70006830,
        AlgorithmId::RsassaPkcs1V15MD5Sha1 => 0x7000f830,
        AlgorithmId::RsassaPkcs1PssMgf1MD5 => 0xf0111930,
        AlgorithmId::RsassaPkcs1PssMgf1Sha1 => 0x70212930,
        AlgorithmId::RsassaPkcs1PssMgf1Sha224 => 0x70313930,
        AlgorithmId::RsassaPkcs1PssMgf1Sha256 => 0x70414930,
        AlgorithmId::RsassaPkcs1PssMgf1Sha384 => 0x70515930,
        AlgorithmId::RsassaPkcs1PssMgf1Sha512 => 0x70616930,
        AlgorithmId::RsaesPkcs1V15 => 0x60000130,
        AlgorithmId::RsaesPkcs1OAepMgf1MD5 => 0xf0110230,
        AlgorithmId::RsaesPkcs1OAepMgf1Sha1 => 0x60210230,
        AlgorithmId::RsaesPkcs1OAepMgf1Sha224 => 0x60310230,
        AlgorithmId::RsaesPkcs1OAepMgf1Sha256 => 0x60410230,
        AlgorithmId::RsaesPkcs1OAepMgf1Sha384 => 0x60510230,
        AlgorithmId::RsaesPkcs1OAepMgf1Sha512 => 0x60610230,
        AlgorithmId::RsaNopad => 0x60000030,
        AlgorithmId::DSASha1 => 0x70002131,
        AlgorithmId::DSASha224 => 0x70003131,
        AlgorithmId::DSASha256 => 0x70004131,
        AlgorithmId::DhDeriveSharedSecret => 0x80000032,
        AlgorithmId::EcDhDeriveSharedSecret => 0x80000042,
        AlgorithmId::EcDsaSha1 => 0x70001042,
        AlgorithmId::EcDsaSha224 => 0x70002042,
        AlgorithmId::EcDsaSha256 => 0x70003042,
        AlgorithmId::EcDsaSha384 => 0x70004042,
        AlgorithmId::EcDsaSha512 => 0x70005042,
        AlgorithmId::Ed25519 => 0x70006043,
        AlgorithmId::X25519 => 0x80000044,
        AlgorithmId::Md5 => 0x50000001,
        AlgorithmId::Sha1 => 0x50000002,
        AlgorithmId::Sha224 => 0x50000003,
        AlgorithmId::Sha256 => 0x50000004,
        AlgorithmId::Sha384 => 0x50000005,
        AlgorithmId::Sha512 => 0x50000006,
        AlgorithmId::Md5Sha1 => 0x5000000f,
        AlgorithmId::HmacMd5 => 0x30000001,
        AlgorithmId::HmacSha1 => 0x30000002,
        AlgorithmId::HmacSha224 => 0x30000003,
        AlgorithmId::HmacSha256 => 0x30000004,
        AlgorithmId::HmacSha384 => 0x30000005,
        AlgorithmId::HmacSha512 => 0x30000006,
        AlgorithmId::IllegalValue => 0xefffffff,
    }
}

impl AlgorithmId {
    /// The identifier that the TEE uses.
    pub fn code(&self) -> (c: u32)
        ensures
            c == algorithm_code(*self),
    {
        match self {
            AlgorithmId::AesEcbNopad => 0x10000010,
            AlgorithmId::AesCbcNopad => 0x10000110,
            AlgorithmId::AesCtr => 0x10000210,
            AlgorithmId::AesCts => 0x10000310,
            AlgorithmId::AesXts => 0x10000410,
            AlgorithmId::AesCbcMacNopad => 0x30000110,
            AlgorithmId::AesCbcMacPkcs5 => 0x30000510,
            AlgorithmId::AesCmac => 0x30000610,
            AlgorithmId::AesCcm => 0x40000710,
            AlgorithmId::AesGcm => 0x40000810,
            AlgorithmId::DesEcbNopad => 0x10000011,
            AlgorithmId::DesCbcNopad => 0x10000111,
            AlgorithmId::DesCbcMacNopad => 0x30000111,
            AlgorithmId::DesCbcMacPkcs5 => 0x30000511,
            AlgorithmId::Des3EcbNopad => 0x10000013,
            AlgorithmId::Des3CbcNopad => 0x10000113,
            AlgorithmId::Des3CbcMacNopad => 0x30000113,
            AlgorithmId::Des3CbcMacPkcs5 => 0x30000513,
            AlgorithmId::RsassaPkcs1V15 => 0xf0000830,
            AlgorithmId::RsassaPkcs1V15MD5 => 0x70001830,
            AlgorithmId::RsassaPkcs1V15Sha1 => 0x70002830,
            AlgorithmId::RsassaPkcs1V15Sha224 => 0x70003830,
            AlgorithmId::RsassaPkcs1V15Sha256 => 0x70004830,
            AlgorithmId::RsassaPkcs1V15Sha384 => 0x70005830,
            AlgorithmId::RsassaPkcs1V15Sha512 => 0x70006830,
            AlgorithmId::RsassaPkcs1V15MD5Sha1 => 0x7000f830,
            AlgorithmId::RsassaPkcs1PssMgf1MD5 => 0xf0111930,
            AlgorithmId::RsassaPkcs1PssMgf1Sha1 => 0x70212930,
            AlgorithmId::RsassaPkcs1PssMgf1Sha224 => 0x70313930,
            AlgorithmId::RsassaPkcs1PssMgf1Sha256 => 0x70414930,
            AlgorithmId::RsassaPkcs1PssMgf1Sha384 => 0x70515930,
            AlgorithmId::RsassaPkcs1PssMgf1Sha512 => 0x70616930,
            AlgorithmId::RsaesPkcs1V15 => 0x60000130,
            AlgorithmId::RsaesPkcs1OAepMgf1MD5 => 0xf0110230,
            AlgorithmId::RsaesPkcs1OAepMgf1Sha1 => 0x60210230,
            AlgorithmId::RsaesPkcs1OAepMgf1Sha224 => 0x60310230,
            AlgorithmId::RsaesPkcs1OAepMgf1Sha256 => 0x60410230,
            AlgorithmId::RsaesPkcs1OAepMgf1Sha384 => 0x60510230,
            AlgorithmId::RsaesPkcs1OAepMgf1Sha512 => 0x60610230,
            AlgorithmId::RsaNopad => 0x60000030,
            AlgorithmId::DSASha1 => 0x70002131,
            AlgorithmId::DSASha224 => 0x70003131,
            AlgorithmId::DSASha256 => 0x70004131,
            AlgorithmId::DhDeriveSharedSecret => 0x80000032,
            AlgorithmId::EcDhDeriveSharedSecret => 0x80000042,
            AlgorithmId::EcDsaSha1 => 0x70001042,
            AlgorithmId::EcDsaSha224 => 0x70002042,
            AlgorithmId::EcDsaSha256 => 0x70003042,
            AlgorithmId::EcDsaSha384 => 0x70004042,
            AlgorithmId::EcDsaSha512 => 0x70005042,
            AlgorithmId::Ed25519 => 0x70006043,
            AlgorithmId::X25519 => 0x80000044,
            AlgorithmId::Md5 => 0x50000001,
            AlgorithmId::Sha1 => 0x50000002,
            AlgorithmId::Sha224 => 0x50000003,
            AlgorithmId::Sha256 => 0x50000004,
            AlgorithmId::Sha384 => 0x50000005,
            AlgorithmId::Sha512 => 0x50000006,
            AlgorithmId::Md5Sha1 => 0x5000000f,
            AlgorithmId::HmacMd5 => 0x30000001,
            AlgorithmId::HmacSha1 => 0x30000002,
            AlgorithmId::HmacSha224 => 0x30000003,
            AlgorithmId::HmacSha256 => 0x30000004,
            AlgorithmId::HmacSha384 => 0x30000005,
            AlgorithmId::HmacSha512 => 0x30000006,
            AlgorithmId::IllegalValue => 0xefffffff,
        }
    }
}
/// Each algorithm is identified to the TEE by the GlobalPlatform
/// `TEE_ALG_*` value of its own name.
pub proof fn lemma_algorithm_codes_are_gp_values()
    ensures
        algorithm_code(AlgorithmId::AesEcbNopad) == TEE_ALG_AES_ECB_NOPAD,
        algorithm_code(AlgorithmId::AesCbcNopad) == TEE_ALG_AES_CBC_NOPAD,
        algorithm_code(AlgorithmId::AesCtr) == TEE_ALG_AES_CTR,
        algorithm_code(AlgorithmId::AesCts) == TEE_ALG_AES_CTS,
        algorithm_code(AlgorithmId::AesXts) == TEE_ALG_AES_XTS,
        algorithm_code(AlgorithmId::AesCbcMacNopad) == TEE_ALG_AES_CBC_MAC_NOPAD,
        algorithm_code(AlgorithmId::AesCbcMacPkcs5) == TEE_ALG_AES_CBC_MAC_PKCS5,
        algorithm_code(AlgorithmId::AesCmac) == TEE_ALG_AES_CMAC,
        algorithm_code(AlgorithmId::AesCcm) == TEE_ALG_AES_CCM,
        algorithm_code(AlgorithmId::AesGcm) == TEE_ALG_AES_GCM,
        algorithm_code(AlgorithmId::DesEcbNopad) == TEE_ALG_DES_ECB_NOPAD,
        algorithm_code(AlgorithmId::DesCbcNopad) == TEE_ALG_DES_CBC_NOPAD,
        algorithm_code(AlgorithmId::DesCbcMacNopad) == TEE_ALG_DES_CBC_MAC_NOPAD,
        algorithm_code(AlgorithmId::DesCbcMacPkcs5) == TEE_ALG_DES_CBC_MAC_PKCS5,
        algorithm_code(AlgorithmId::Des3EcbNopad) == TEE_ALG_DES3_ECB_NOPAD,
        algorithm_code(AlgorithmId::Des3CbcNopad) == TEE_ALG_DES3_CBC_NOPAD,
        algorithm_code(AlgorithmId::Des3CbcMacNopad) == TEE_ALG_DES3_CBC_MAC_NOPAD,
        algorithm_code(AlgorithmId::Des3CbcMacPkcs5) == TEE_ALG_DES3_CBC_MAC_PKCS5,
        algorithm_code(AlgorithmId::RsassaPkcs1V15) == TEE_ALG_RSASSA_PKCS1_V1_5,
        algorithm_code(AlgorithmId::RsassaPkcs1V15MD5) == TEE_ALG_RSASSA_PKCS1_V1_5_MD5,
        algorithm_code(AlgorithmId::RsassaPkcs1V15Sha1) == TEE_ALG_RSASSA_PKCS1_V1_5_SHA1,
        algorithm_code(AlgorithmId::RsassaPkcs1V15Sha224) == TEE_ALG_RSASSA_PKCS1_V1_5_SHA224,
        algorithm_code(AlgorithmId::RsassaPkcs1V15Sha256) == TEE_ALG_RSASSA_PKCS1_V1_5_SHA256,
        algorithm_code(AlgorithmId::RsassaPkcs1V15Sha384) == TEE_ALG_RSASSA_PKCS1_V1_5_SHA384,
        algorithm_code(AlgorithmId::RsassaPkcs1V15Sha512) == TEE_ALG_RSASSA_PKCS1_V1_5_SHA512,
        algorithm_code(AlgorithmId::RsassaPkcs1V15MD5Sha1) == TEE_ALG_RSASSA_PKCS1_V1_5_MD5SHA1,
        algorithm_code(AlgorithmId::RsassaPkcs1PssMgf1MD5) == TEE_ALG_RSASSA_PKCS1_PSS_MGF1_MD5,
        algorithm_code(AlgorithmId::RsassaPkcs1PssMgf1Sha1) == TEE_ALG_RSASSA_PKCS1_PSS_MGF1_SHA1,
        algorithm_code(AlgorithmId::RsassaPkcs1PssMgf1Sha224) == TEE_ALG_RSASSA_PKCS1_PSS_MGF1_SHA224,
        algorithm_code(AlgorithmId::RsassaPkcs1PssMgf1Sha256) == TEE_ALG_RSASSA_PKCS1_PSS_MGF1_SHA256,
        algorithm_code(AlgorithmId::RsassaPkcs1PssMgf1Sha384) == TEE_ALG_RSASSA_PKCS1_PSS_MGF1_SHA384,
        algorithm_code(AlgorithmId::RsassaPkcs1PssMgf1Sha512) == TEE_ALG_RSASSA_PKCS1_PSS_MGF1_SHA512,
        algorithm_code(AlgorithmId::RsaesPkcs1V15) == TEE_ALG_RSAES_PKCS1_V1_5,
        algorithm_code(AlgorithmId::RsaesPkcs1OAepMgf1MD5) == TEE_ALG_RSAES_PKCS1_OAEP_MGF1_MD5,
        algorithm_code(AlgorithmId::RsaesPkcs1OAepMgf1Sha1) == TEE_ALG_RSAES_PKCS1_OAEP_MGF1_SHA1,
        algorithm_code(AlgorithmId::RsaesPkcs1OAepMgf1Sha224) == TEE_ALG_RSAES_PKCS1_OAEP_MGF1_SHA224,
        algorithm_code(AlgorithmId::RsaesPkcs1OAepMgf1Sha256) == TEE_ALG_RSAES_PKCS1_OAEP_MGF1_SHA256,
        algorithm_code(AlgorithmId::RsaesPkcs1OAepMgf1Sha384) == TEE_ALG_RSAES_PKCS1_OAEP_MGF1_SHA384,
        algorithm_code(AlgorithmId::RsaesPkcs1OAepMgf1Sha512) == TEE_ALG_RSAES_PKCS1_OAEP_MGF1_SHA512,
        algorithm_code(AlgorithmId::RsaNopad) == TEE_ALG_RSA_NOPAD,
        algorithm_code(AlgorithmId::DSASha1) == TEE_ALG_DSA_SHA1,
        algorithm_code(AlgorithmId::DSASha224) == TEE_ALG_DSA_SHA224,
        algorithm_code(AlgorithmId::DSASha256) == TEE_ALG_DSA_SHA256,
        algorithm_code(AlgorithmId::DhDeriveSharedSecret) == TEE_ALG_DH_DERIVE_SHARED_SECRET,
        algorithm_code(AlgorithmId::EcDhDeriveSharedSecret) == TEE_ALG_ECDH_DERIVE_SHARED_SECRET,
        algorithm_code(AlgorithmId::EcDsaSha1) == TEE_ALG_ECDSA_SHA1,
        algorithm_code(AlgorithmId::EcDsaSha224) == TEE_ALG_ECDSA_SHA224,
        algorithm_code(AlgorithmId::EcDsaSha256) == TEE_ALG_ECDSA_SHA256,
        algorithm_code(AlgorithmId::EcDsaSha384) == TEE_ALG_ECDSA_SHA384,
        algorithm_code(AlgorithmId::EcDsaSha512) == TEE_ALG_ECDSA_SHA512,
        algorithm_code(AlgorithmId::Ed25519) == TEE_ALG_ED25519,
        algorithm_code(AlgorithmId::X25519) == TEE_ALG_X25519,
        algorithm_code(AlgorithmId::Md5) == TEE_ALG_MD5,
        algorithm_code(AlgorithmId::Sha1) == TEE_ALG_SHA1,
        algorithm_code(AlgorithmId::Sha224) == TEE_ALG_SHA224,
        algorithm_code(AlgorithmId::Sha256) == TEE_ALG_SHA256,
        algorithm_code(AlgorithmId::Sha384) == TEE_ALG_SHA384,
        algorithm_code(AlgorithmId::Sha512) == TEE_ALG_SHA512,
        algorithm_code(AlgorithmId::Md5Sha1) == TEE_ALG_MD5SHA1,
        algorithm_code(AlgorithmId::HmacMd5) == TEE_ALG_HMAC_MD5,
        algorithm_code(AlgorithmId::HmacSha1) == TEE_ALG_HMAC_SHA1,
        algorithm_code(AlgorithmId::HmacSha224) == TEE_ALG_HMAC_SHA224,
        algorithm_code(AlgorithmId::HmacSha256) == TEE_ALG_HMAC_SHA256,
        algorithm_code(AlgorithmId::HmacSha384) == TEE_ALG_HMAC_SHA384,
        algorithm_code(AlgorithmId::HmacSha512) == TEE_ALG_HMAC_SHA512,
        algorithm_code(AlgorithmId::IllegalValue) == TEE_ALG_ILLEGAL_VALUE,
{
}

/// No two algorithms share an identifier: the TEE is never asked for one
/// algorithm in place of another.
pub proof fn lemma_algorithm_code_injective(a: AlgorithmId, b: AlgorithmId)
    ensures
        algorithm_code(a) == algorithm_code(b) ==> a == b,
{
}

#[derive(Clone, Copy, Debug, PartialEq, Eq, Structural)]
pub enum ElementId {
    /// Where algId fully defines the required support,
    /// the special value TEE_CRYPTO_ELEMENT_NONE should be used
    ElementNone,
    /// Source: `NIST`, Generic: `Y`, Size: 192 bits
    EccCurveNistP192,
    /// Source: `NIST`, Generic: `Y`, Size: 224 bits
    EccCurveNistP224,
    /// Source: `NIST`, Generic: `Y`, Size: 256 bits
    EccCurveNistP256,
    /// Source: `NIST`, Generic: `Y`, Size: 384 bits
    EccCurveNistP384,
    /// Source: `NIST`, Generic: `Y`, Size: 521 bits
    EccCurveNistP521,
    /// Source: `IETF`, Generic: `N`, Size: 256 bits
    EccCurve25519,
}

/// The identifier that the TEE uses for each value.
pub open spec fn element_code(v: ElementId) -> u32 {
    match v {
        ElementId::ElementNone => 0x00000000,
        ElementId::EccCurveNistP192 => 0x00000001,
        ElementId::EccCurveNistP224 => 0x00000002,
        ElementId::EccCurveNistP256 => 0x00000003,
        ElementId::EccCurveNistP384 => 0x00000004,
        ElementId::EccCurveNistP521 => 0x00000005,
        ElementId::EccCurve25519 => 0x00000300,
    }
}

impl ElementId {
    /// The identifier that the TEE uses.
    pub fn code(&self) -> (c: u32)
        ensures
            c == element_code(*self),
    {
        match self {
            ElementId::ElementNone => 0x00000000,
            ElementId::EccCurveNistP192 => 0x00000001,
            ElementId::EccCurveNistP224 => 0x00000002,
            ElementId::EccCurveNistP256 => 0x00000003,
            ElementId::EccCurveNistP384 => 0x00000004,
            ElementId::EccCurveNistP521 => 0x00000005,
            ElementId::EccCurve25519 => 0x00000300,
        }
    }
}
} // verus!
