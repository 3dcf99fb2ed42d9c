//! Objects of the TEE's storage: handles on transient and persistent
//! objects, their attributes, information and flags, and the TEE calls that
//! act on them.

use vstd::prelude::*;
use crate::defines::TEE_SUCCESS;
use crate::error::{Error, ErrorKind, Result, is_code_error, is_kind_error};

verus! {

/// An attribute of an object, as the TEE's `TEE_Attribute` holds it: an
/// identifier, and either a reference to a buffer or two values.
pub struct TeeAttribute {
    pub attribute_id: u32,
    pub content: AttributeContent,
}

/// The content of an attribute.
pub enum AttributeContent {
    Memref { buffer: Vec<u8> },
    Value { a: u32, b: u32 },
}

/// The model of an attribute's content.
pub enum AttributeState {
    Memref { buffer: Seq<u8> },
    Value { a: u32, b: u32 },
}

/// The model of a raw attribute: its identifier and content.
pub open spec fn attribute_state(a: TeeAttribute) -> (u32, AttributeState) {
    (
        a.attribute_id,
        match a.content {
            AttributeContent::Memref { buffer } => AttributeState::Memref { buffer: buffer@ },
            AttributeContent::Value { a, b } => AttributeState::Value { a, b },
        },
    )
}

fn copy_attribute(a: &TeeAttribute) -> (r: TeeAttribute)
    ensures
        attribute_state(r) == attribute_state(*a),
{
    let content = match &a.content {
        AttributeContent::Memref { buffer } => AttributeContent::Memref {
            buffer: vstd::slice::slice_to_vec(buffer.as_slice()),
        },
        AttributeContent::Value { a, b } => AttributeContent::Value { a: *a, b: *b },
    };
    TeeAttribute { attribute_id: a.attribute_id, content }
}

/// The raw attributes of a list of attributes, in order.
pub fn raw_attributes(attrs: &[Attribute]) -> (r: Vec<TeeAttribute>)
    ensures
        r@.len() == attrs@.len(),
        forall|i: int| 0 <= i < attrs@.len() ==> attribute_state(#[trigger] r@[i]) == attrs@[i]@,
{
    let mut r: Vec<TeeAttribute> = Vec::new();
    let mut i: usize = 0;
    while i < attrs.len()
        invariant
            i <= attrs@.len(),
            r@.len() == i,
            forall|j: int| 0 <= j < i ==> attribute_state(#[trigger] r@[j]) == attrs@[j]@,
        decreases attrs@.len() - i,
    {
        r.push(attrs[i].raw());
        i = i + 1;
    }
    r
}

/// An attribute of either kind, ready to be handed to the TEE.
pub struct Attribute {
    raw: TeeAttribute,
}

impl View for Attribute {
    type V = (u32, AttributeState);

    closed spec fn view(&self) -> (u32, AttributeState) {
        attribute_state(self.raw)
    }
}

impl Attribute {
    /// The raw attribute.
    pub fn raw(&self) -> (r: TeeAttribute)
        ensures
            attribute_state(r) == self@,
    {
        copy_attribute(&self.raw)
    }

    /// The attribute of a buffer attribute.
    pub fn from_memref(attr: AttributeMemref) -> (a: Attribute)
        ensures
            a@ == attr@,
    {
        Attribute { raw: attr.raw }
    }

    /// The attribute of a value attribute.
    pub fn from_value_attribute(attr: AttributeValue) -> (a: Attribute)
        ensures
            a@ == attr@,
    {
        Attribute { raw: attr.raw }
    }
}

/// An attribute that refers to a buffer.
pub struct AttributeMemref {
    raw: TeeAttribute,
}

impl View for AttributeMemref {
    type V = (u32, AttributeState);

    closed spec fn view(&self) -> (u32, AttributeState) {
        attribute_state(self.raw)
    }
}

impl AttributeMemref {
    /// The raw attribute.
    pub fn raw(&self) -> (r: TeeAttribute)
        ensures
            attribute_state(r) == self@,
    {
        copy_attribute(&self.raw)
    }

    /// The attribute `id` referring to a copy of `buffer`, as
    /// `TEE_InitRefAttribute` makes it.
    pub fn from_ref(id: AttributeId, buffer: &[u8]) -> (a: AttributeMemref)
        ensures
            a@ == (attribute_code(id), AttributeState::Memref { buffer: buffer@ }),
    {
        AttributeMemref {
            raw: TeeAttribute {
                attribute_id: id.code(),
                content: AttributeContent::Memref { buffer: vstd::slice::slice_to_vec(buffer) },
            },
        }
    }
}

/// An attribute that holds two values.
pub struct AttributeValue {
    raw: TeeAttribute,
}

impl View for AttributeValue {
    type V = (u32, AttributeState);

    closed spec fn view(&self) -> (u32, AttributeState) {
        attribute_state(self.raw)
    }
}

impl AttributeValue {
    /// The raw attribute.
    pub fn raw(&self) -> (r: TeeAttribute)
        ensures
            attribute_state(r) == self@,
    {
        copy_attribute(&self.raw)
    }

    /// The attribute `id` holding `a` and `b`, as `TEE_InitValueAttribute`
    /// makes it.
    pub fn from_value(id: AttributeId, a: u32, b: u32) -> (v: AttributeValue)
        ensures
            v@ == (attribute_code(id), AttributeState::Value { a, b }),
    {
        AttributeValue {
            raw: TeeAttribute { attribute_id: id.code(), content: AttributeContent::Value { a, b } },
        }
    }
}

/// Where a seek in an object's data starts from.
#[derive(Clone, Copy, Debug, PartialEq, Eq, Structural)]
pub enum Whence {
    DataSeekSet,
    DataSeekCur,
    DataSeekEnd,
}

/// The value of `TEE_Whence` for each starting point.
pub open spec fn whence_code(w: Whence) -> u32 {
    match w {
        Whence::DataSeekSet => 0,
        Whence::DataSeekCur => 1,
        Whence::DataSeekEnd => 2,
    }
}

impl Whence {
    /// The value of `TEE_Whence`.
    pub fn code(&self) -> (c: u32)
        ensures
            c == whence_code(*self),
    {
        match self {
            Whence::DataSeekSet => 0,
            Whence::DataSeekCur => 1,
            Whence::DataSeekEnd => 2,
        }
    }
}

/// The storage that persistent objects live in.
#[derive(Clone, Copy, Debug, PartialEq, Eq, Structural)]
pub enum ObjectStorageConstants {
    Private,
    IllegalValue,
}

/// The identifier of a storage.
pub open spec fn storage_code(s: ObjectStorageConstants) -> u32 {
    match s {
        ObjectStorageConstants::Private => 0x0000_0001,
        ObjectStorageConstants::IllegalValue => 0x7FFF_FFFF,
    }
}

impl ObjectStorageConstants {
    /// The identifier of the storage.
    pub fn code(&self) -> (c: u32)
        ensures
            c == storage_code(*self),
    {
        match self {
            ObjectStorageConstants::Private => 0x0000_0001,
            ObjectStorageConstants::IllegalValue => 0x7FFF_FFFF,
        }
    }
}

/// Limits of object data.
#[derive(Clone, Copy, Debug, PartialEq, Eq, Structural)]
pub enum MiscellaneousConstants {
    TeeDataMaxPosition,
    TeeObjectIdMaxLen,
}

/// The value of each limit.
pub open spec fn misc_code(m: MiscellaneousConstants) -> u32 {
    match m {
        MiscellaneousConstants::TeeDataMaxPosition => 0xFFFF_FFFF,
        MiscellaneousConstants::TeeObjectIdMaxLen => 64,
    }
}

impl MiscellaneousConstants {
    /// The value of the limit.
    pub fn code(&self) -> (c: u32)
        ensures
            c == misc_code(*self),
    {
        match self {
            MiscellaneousConstants::TeeDataMaxPosition => 0xFFFF_FFFF,
            MiscellaneousConstants::TeeObjectIdMaxLen => 64,
        }
    }
}

/// Flags for opening a persistent object: access rights, sharing, and whether to overwrite.
#[derive(Clone, Copy, Debug, PartialEq, Eq, Structural)]
pub struct DataFlag {
    bits: u32,
}

impl DataFlag {
    #[verifier::type_invariant]
    closed spec fn inv(self) -> bool {
        self.bits & 0x437 == self.bits
    }

    pub const ACCESS_READ: u32 = 0x00000001;
    pub const ACCESS_WRITE: u32 = 0x00000002;
    pub const ACCESS_WRITE_META: u32 = 0x00000004;
    pub const SHARE_READ: u32 = 0x00000010;
    pub const SHARE_WRITE: u32 = 0x00000020;
    pub const OVERWRITE: u32 = 0x00000400;
    /// The bits that name a flag.
    pub open spec fn spec_all() -> u32 {
        0x437
    }

    pub closed spec fn spec_bits(&self) -> u32 {
        self.bits
    }

    /// The flags of `bits`, dropping the bits that name no flag.
    pub fn from_bits_truncate(bits: u32) -> (f: DataFlag)
        ensures
            f.spec_bits() == bits & Self::spec_all(),
    {
        let b = bits & 0x437;
        assert(b & 0x437 == b) by (bit_vector)
            requires
                b == bits & 0x437,
        ;
        DataFlag { bits: b }
    }

    /// The flags of `bits`; `None` if a bit names no flag.
    pub fn from_bits(bits: u32) -> (f: Option<DataFlag>)
        ensures
            f is Some <==> bits & Self::spec_all() == bits,
            f matches Some(g) ==> g.spec_bits() == bits,
    {
        if bits & 0x437 == bits {
            Some(DataFlag { bits })
        } else {
            None
        }
    }

    /// No flag.
    pub fn empty() -> (f: DataFlag)
        ensures
            f.spec_bits() == 0,
    {
        assert(0u32 & 0x437 == 0u32) by (bit_vector);
        DataFlag { bits: 0 }
    }

    /// The bits of the flags.
    pub fn bits(&self) -> (b: u32)
        ensures
            b == self.spec_bits(),
    {
        self.bits
    }

    /// Every flag of `other` is set here.
    pub fn contains(&self, other: DataFlag) -> (b: bool)
        ensures
            b == (self.spec_bits() & other.spec_bits() == other.spec_bits()),
    {
        self.bits & other.bits == other.bits
    }

    /// The flags set in either.
    pub fn union(&self, other: DataFlag) -> (f: DataFlag)
        ensures
            f.spec_bits() == self.spec_bits() | other.spec_bits(),
    {
        proof {
            use_type_invariant(self);
            use_type_invariant(&other);
        }
        let x = self.bits;
        let y = other.bits;
        let b = x | y;
        assert(b & 0x437 == b) by (bit_vector)
            requires
                x & 0x437 == x,
                y & 0x437 == y,
                b == x | y,
        ;
        DataFlag { bits: b }
    }
}

/// What the key of an object may be used for.
#[derive(Clone, Copy, Debug, PartialEq, Eq, Structural)]
pub struct UsageFlag {
    bits: u32,
}

impl UsageFlag {
    #[verifier::type_invariant]
    closed spec fn inv(self) -> bool {
        self.bits & 0x7f == self.bits
    }

    pub const EXTRACTABLE: u32 = 0x00000001;
    pub const ENCRYPT: u32 = 0x00000002;
    pub const DECRYPT: u32 = 0x00000004;
    pub const MAC: u32 = 0x00000008;
    pub const SIGN: u32 = 0x00000010;
    pub const VERIFY: u32 = 0x00000020;
    pub const DERIVE: u32 = 0x00000040;
    /// The bits that name a flag.
    pub open spec fn spec_all() -> u32 {
        0x7f
    }

    pub closed spec fn spec_bits(&self) -> u32 {
        self.bits
    }

    /// The flags of `bits`, dropping the bits that name no flag.
    pub fn from_bits_truncate(bits: u32) -> (f: UsageFlag)
        ensures
            f.spec_bits() == bits & Self::spec_all(),
    {
        let b = bits & 0x7f;
        assert(b & 0x7f == b) by (bit_vector)
            requires
                b == bits & 0x7f,
        ;
        UsageFlag { bits: b }
    }

    /// The flags of `bits`; `None` if a bit names no flag.
    pub fn from_bits(bits: u32) -> (f: Option<UsageFlag>)
        ensures
            f is Some <==> bits & Self::spec_all() == bits,
            f matches Some(g) ==> g.spec_bits() == bits,
    {
        if bits & 0x7f == bits {
            Some(UsageFlag { bits })
        } else {
            None
        }
    }

    /// No flag.
    pub fn empty() -> (f: UsageFlag)
        ensures
            f.spec_bits() == 0,
    {
        assert(0u32 & 0x7f == 0u32) by (bit_vector);
        UsageFlag { bits: 0 }
    }

    /// The bits of the flags.
    pub fn bits(&self) -> (b: u32)
        ensures
            b == self.spec_bits(),
    {
        self.bits
    }

    /// Every flag of `other` is set here.
    pub fn contains(&self, other: UsageFlag) -> (b: bool)
        ensures
            b == (self.spec_bits() & other.spec_bits() == other.spec_bits()),
    {
        self.bits & other.bits == other.bits
    }

    /// The flags set in either.
    pub fn union(&self, other: UsageFlag) -> (f: UsageFlag)
        ensures
            f.spec_bits() == self.spec_bits() | other.spec_bits(),
    {
        proof {
            use_type_invariant(self);
            use_type_invariant(&other);
        }
        let x = self.bits;
        let y = other.bits;
        let b = x | y;
        assert(b & 0x7f == b) by (bit_vector)
            requires
                x & 0x7f == x,
                y & 0x7f == y,
                b == x | y,
        ;
        UsageFlag { bits: b }
    }
}

/// The state of an object handle.
#[derive(Clone, Copy, Debug, PartialEq, Eq, Structural)]
pub struct HandleFlag {
    bits: u32,
}

impl HandleFlag {
    #[verifier::type_invariant]
    closed spec fn inv(self) -> bool {
        self.bits & 0xf0000 == self.bits
    }

    pub const PERSISTENT: u32 = 0x00010000;
    pub const INITIALIZED: u32 = 0x00020000;
    pub const KEY_SET: u32 = 0x00040000;
    pub const EXPECT_TWO_KEYS: u32 = 0x00080000;
    /// The bits that name a flag.
    pub open spec fn spec_all() -> u32 {
        0xf0000
    }

    pub closed spec fn spec_bits(&self) -> u32 {
        self.bits
    }

    /// The flags of `bits`, dropping the bits that name no flag.
    pub fn from_bits_truncate(bits: u32) -> (f: HandleFlag)
        ensures
            f.spec_bits() == bits & Self::spec_all(),
    {
        let b = bits & 0xf0000;
        assert(b & 0xf0000 == b) by (bit_vector)
            requires
                b == bits & 0xf0000,
        ;
        HandleFlag { bits: b }
    }

    /// The flags of `bits`; `None` if a bit names no flag.
    pub fn from_bits(bits: u32) -> (f: Option<HandleFlag>)
        ensures
            f is Some <==> bits & Self::spec_all() == bits,
            f matches Some(g) ==> g.spec_bits() == bits,
    {
        if bits & 0xf0000 == bits {
            Some(HandleFlag { bits })
        } else {
            None
        }
    }

    /// No flag.
    pub fn empty() -> (f: HandleFlag)
        ensures
            f.spec_bits() == 0,
    {
        assert(0u32 & 0xf0000 == 0u32) by (bit_vector);
        HandleFlag { bits: 0 }
    }

    /// The bits of the flags.
    pub fn bits(&self) -> (b: u32)
        ensures
            b == self.spec_bits(),
    {
        self.bits
    }

    /// Every flag of `other` is set here.
    pub fn contains(&self, other: HandleFlag) -> (b: bool)
        ensures
            b == (self.spec_bits() & other.spec_bits() == other.spec_bits()),
    {
        self.bits & other.bits == other.bits
    }

    /// The flags set in either.
    pub fn union(&self, other: HandleFlag) -> (f: HandleFlag)
        ensures
            f.spec_bits() == self.spec_bits() | other.spec_bits(),
    {
        proof {
            use_type_invariant(self);
            use_type_invariant(&other);
        }
        let x = self.bits;
        let y = other.bits;
        let b = x | y;
        assert(b & 0xf0000 == b) by (bit_vector)
            requires
                x & 0xf0000 == x,
                y & 0xf0000 == y,
                b == x | y,
        ;
        HandleFlag { bits: b }
    }
}
#[derive(Clone, Copy, Debug, PartialEq, Eq, Structural)]
pub enum AttributeId {
    SecretValue,
    RsaModulus,
    RsaPublicExponent,
    RsaPrivateExponent,
    RsaPrime1,
    RsaPrime2,
    RsaExponent1,
    RsaExponent2,
    RsaCoefficient,
    DsaPrime,
    DsaSubprime,
    DsaBase,
    DsaPublicValue,
    DsaPrivateValue,
    DhPrime,
    DhSubprime,
    DhBase,
    DhXBits,
    DhPublicValue,
    DhPrivateValue,
    RsaOaepLabel,
    RsaOaepMgf1Hash,
    RsaPssSaltLength,
    EccPublicValueX,
    EccPublicValueY,
    EccPrivateValue,
    Ed25519PublicValue,
    Ed25519PrivateValue,
    X25519PublicValue,
    X25519PrivateValue,
    EccCurve,
    BitProtected,
    BitValue,
}

/// The identifier that the TEE uses for each value.
pub open spec fn attribute_code(v: AttributeId) -> u32 {
    match v {
        AttributeId::SecretValue => 0xc0000000,
        AttributeId::RsaModulus => 0xd0000130,
        AttributeId::RsaPublicExponent => 0xd0000230,
        AttributeId::RsaPrivateExponent => 0xc0000330,
        AttributeId::RsaPrime1 => 0xc0000430,
        AttributeId::RsaPrime2 => 0xc0000530,
        AttributeId::RsaExponent1 => 0xc0000630,
        AttributeId::RsaExponent2 => 0xc0000730,
        AttributeId::RsaCoefficient => 0xc0000830,
        AttributeId::DsaPrime => 0xd0001031,
        AttributeId::DsaSubprime => 0xd0001131,
        AttributeId::DsaBase => 0xd0001231,
        AttributeId::DsaPublicValue => 0xd0000131,
        AttributeId::DsaPrivateValue => 0xc0000231,
        AttributeId::DhPrime => 0xd0001032,
        AttributeId::DhSubprime => 0xd0001132,
        AttributeId::DhBase => 0xd0001232,
        AttributeId::DhXBits => 0xf0001332,
        AttributeId::DhPublicValue => 0xd0000132,
        AttributeId::DhPrivateValue => 0xc0000232,
        AttributeId::RsaOaepLabel => 0xd0000930,
        AttributeId::RsaOaepMgf1Hash => 0xd0000931,
        AttributeId::RsaPssSaltLength => 0xf0000a30,
        AttributeId::EccPublicValueX => 0xd0000141,
        AttributeId::EccPublicValueY => 0xd0000241,
        AttributeId::EccPrivateValue => 0xc0000341,
        AttributeId::Ed25519PublicValue => 0xd0000743,
        AttributeId::Ed25519PrivateValue => 0xc0000843,
        AttributeId::X25519PublicValue => 0xd0000944,
        AttributeId::X25519PrivateValue => 0xc0000a44,
        AttributeId::EccCurve => 0xf0000441,
        AttributeId::BitProtected => 0x10000000,
        AttributeId::BitValue => 0x20000000,
    }
}

impl AttributeId {
    /// The identifier that the TEE uses.
    pub fn code(&self) -> (c: u32)
        ensures
            c == attribute_code(*self),
    {
        match self {
            AttributeId::SecretValue => 0xc0000000,
            AttributeId::RsaModulus => 0xd0000130,
            AttributeId::RsaPublicExponent => 0xd0000230,
            AttributeId::RsaPrivateExponent => 0xc0000330,
            AttributeId::RsaPrime1 => 0xc0000430,
            AttributeId::RsaPrime2 => 0xc0000530,
            AttributeId::RsaExponent1 => 0xc0000630,
            AttributeId::RsaExponent2 => 0xc0000730,
            AttributeId::RsaCoefficient => 0xc0000830,
            AttributeId::DsaPrime => 0xd0001031,
            AttributeId::DsaSubprime => 0xd0001131,
            AttributeId::DsaBase => 0xd0001231,
            AttributeId::DsaPublicValue => 0xd0000131,
            AttributeId::DsaPrivateValue => 0xc0000231,
            AttributeId::DhPrime => 0xd0001032,
            AttributeId::DhSubprime => 0xd0001132,
            AttributeId::DhBase => 0xd0001232,
            AttributeId::DhXBits => 0xf0001332,
            AttributeId::DhPublicValue => 0xd0000132,
            AttributeId::DhPrivateValue => 0xc0000232,
            AttributeId::RsaOaepLabel => 0xd0000930,
            AttributeId::RsaOaepMgf1Hash => 0xd0000931,
            AttributeId::RsaPssSaltLength => 0xf0000a30,
            AttributeId::EccPublicValueX => 0xd0000141,
            AttributeId::EccPublicValueY => 0xd0000241,
            AttributeId::EccPrivateValue => 0xc0000341,
            AttributeId::Ed25519PublicValue => 0xd0000743,
            AttributeId::Ed25519PrivateValue => 0xc0000843,
            AttributeId::X25519PublicValue => 0xd0000944,
            AttributeId::X25519PrivateValue => 0xc0000a44,
            AttributeId::EccCurve => 0xf0000441,
            AttributeId::BitProtected => 0x10000000,
            AttributeId::BitValue => 0x20000000,
        }
    }
}
#[derive(Clone, Copy, Debug, PartialEq, Eq, Structural)]
pub enum TransientObjectType {
    Aes,
    Des,
    Des3,
    HmacMd5,
    HmacSha1,
    HmacSha224,
    HmacSha256,
    HmacSha384,
    HmacSha512,
    RsaPublicKey,
    RsaKeypair,
    DsaPublicKey,
    DsaKeypair,
    DhKeypair,
    EcdsaPublicKey,
    EcdsaKeypair,
    EcdhPublicKey,
    EcdhKeypair,
    Ed25519PublicKey,
    Ed25519Keypair,
    X25519PublicKey,
    X25519Keypair,
    GenericSecret,
    CorruptedObject,
    Data,
}

/// The identifier that the TEE uses for each value.
pub open spec fn object_type_code(v: TransientObjectType) -> u32 {
    match v {
        TransientObjectType::Aes => 0xa0000010,
        TransientObjectType::Des => 0xa0000011,
        TransientObjectType::Des3 => 0xa0000013,
        TransientObjectType::HmacMd5 => 0xa0000001,
        TransientObjectType::HmacSha1 => 0xa0000002,
        TransientObjectType::HmacSha224 => 0xa0000003,
        TransientObjectType::HmacSha256 => 0xa0000004,
        TransientObjectType::HmacSha384 => 0xa0000005,
        TransientObjectType::HmacSha512 => 0xa0000006,
        TransientObjectType::RsaPublicKey => 0xa0000030,
        TransientObjectType::RsaKeypair => 0xa1000030,
        TransientObjectType::DsaPublicKey => 0xa0000031,
        TransientObjectType::DsaKeypair => 0xa1000031,
        TransientObjectType::DhKeypair => 0xa1000032,
        TransientObjectType::EcdsaPublicKey => 0xa0000041,
        TransientObjectType::EcdsaKeypair => 0xa1000041,
        TransientObjectType::EcdhPublicKey => 0xa0000042,
        TransientObjectType::EcdhKeypair => 0xa1000042,
        TransientObjectType::Ed25519PublicKey => 0xa0000043,
        TransientObjectType::Ed25519Keypair => 0xa1000043,
        TransientObjectType::X25519PublicKey => 0xa0000044,
        TransientObjectType::X25519Keypair => 0xa1000044,
        TransientObjectType::GenericSecret => 0xa0000000,
        TransientObjectType::CorruptedObject => 0xa00000be,
        TransientObjectType::Data => 0xa00000bf,
    }
}

impl TransientObjectType {
    /// The identifier that the TEE uses.
    pub fn code(&self) -> (c: u32)
        ensures
            c == object_type_code(*self),
    {
        match self {
            TransientObjectType::Aes => 0xa0000010,
            TransientObjectType::Des => 0xa0000011,
            TransientObjectType::Des3 => 0xa0000013,
            TransientObjectType::HmacMd5 => 0xa0000001,
            TransientObjectType::HmacSha1 => 0xa0000002,
            TransientObjectType::HmacSha224 => 0xa0000003,
            TransientObjectType::HmacSha256 => 0xa0000004,
            TransientObjectType::HmacSha384 => 0xa0000005,
            TransientObjectType::HmacSha512 => 0xa0000006,
            TransientObjectType::RsaPublicKey => 0xa0000030,
            TransientObjectType::RsaKeypair => 0xa1000030,
            TransientObjectType::DsaPublicKey => 0xa0000031,
            TransientObjectType::DsaKeypair => 0xa1000031,
            TransientObjectType::DhKeypair => 0xa1000032,
            TransientObjectType::EcdsaPublicKey => 0xa0000041,
            TransientObjectType::EcdsaKeypair => 0xa1000041,
            TransientObjectType::EcdhPublicKey => 0xa0000042,
            TransientObjectType::EcdhKeypair => 0xa1000042,
            TransientObjectType::Ed25519PublicKey => 0xa0000043,
            TransientObjectType::Ed25519Keypair => 0xa1000043,
            TransientObjectType::X25519PublicKey => 0xa0000044,
            TransientObjectType::X25519Keypair => 0xa1000044,
            TransientObjectType::GenericSecret => 0xa0000000,
            TransientObjectType::CorruptedObject => 0xa00000be,
            TransientObjectType::Data => 0xa00000bf,
        }
    }
}

/// The characteristics of an object, as the TEE's `TEE_ObjectInfo` holds
/// them.
#[derive(Clone, Copy, Debug, PartialEq, Eq, Structural)]
pub struct TeeObjectInfo {
    pub object_type: u32,
    pub object_size: u32,
    pub max_object_size: u32,
    pub object_usage: u32,
    pub data_size: u32,
    pub data_position: u32,
    pub handle_flags: u32,
}

/// The characteristics of an object.
#[derive(Clone, Copy)]
pub struct ObjectInfo {
    pub raw: TeeObjectInfo,
}

impl ObjectInfo {
    /// The information of the raw structure.
    pub fn from_raw(raw: TeeObjectInfo) -> (i: ObjectInfo)
        ensures
            i.raw == raw,
    {
        ObjectInfo { raw }
    }

    /// The information that the TEE returned with `status`: the error of the
    /// status unless it is success.
    pub fn from_reply(status: u32, raw: TeeObjectInfo) -> (r: Result<ObjectInfo>)
        ensures
            status == TEE_SUCCESS ==> (r matches Ok(i) && i.raw == raw),
            status != TEE_SUCCESS ==> (r matches Err(e) && is_code_error(e, status)),
    {
        if status == TEE_SUCCESS {
            Ok(ObjectInfo { raw })
        } else {
            Err(Error::from_raw_error(status))
        }
    }

    /// The size of the object's data.
    pub fn data_size(&self) -> (v: usize)
        ensures
            v == self.raw.data_size,
    {
        self.raw.data_size as usize
    }

    /// The size of the object in bits.
    pub fn object_size(&self) -> (v: usize)
        ensures
            v == self.raw.object_size,
    {
        self.raw.object_size as usize
    }

    /// The type of the object.
    pub fn object_type(&self) -> (v: u32)
        ensures
            v == self.raw.object_type,
    {
        self.raw.object_type
    }
}

/// A call of the TEE's object interface, with the values it is made with.
pub enum ObjectCall {
    Close { handle: u64 },
    GetInfo { handle: u64 },
    RestrictUsage { handle: u64, usage: u32 },
    GetBufferAttribute { handle: u64, id: u32, capacity: usize },
    GetValueAttribute { handle: u64, id: u32 },
    AllocateTransient { object_type: u32, max_object_size: u32 },
    ResetTransient { handle: u64 },
    Populate { handle: u64, attrs: Vec<TeeAttribute> },
    CopyAttributes { dst: u64, src: u64 },
    GenerateKey { handle: u64, key_size: u32, params: Vec<TeeAttribute> },
    OpenPersistent { storage_id: u32, object_id: Vec<u8>, flags: u32 },
    CreatePersistent {
        storage_id: u32,
        object_id: Vec<u8>,
        flags: u32,
        attributes: u64,
        initial_data: Vec<u8>,
    },
    CloseAndDelete { handle: u64 },
    Rename { handle: u64, new_object_id: Vec<u8> },
    Read { handle: u64, capacity: usize },
    Write { handle: u64, data: Vec<u8> },
    Truncate { handle: u64, size: usize },
    Seek { handle: u64, offset: i32, whence: u32 },
    AllocateEnumerator,
    FreeEnumerator { handle: u64 },
    ResetEnumerator { handle: u64 },
    StartEnumerator { handle: u64, storage_id: u32 },
    NextObject { handle: u64, id_capacity: usize },
}

/// `call` hands the TEE the attributes `attrs` (as `Populate` and
/// `GenerateKey` do).
pub open spec fn hands_attributes(raw: Seq<TeeAttribute>, attrs: Seq<Attribute>) -> bool {
    raw.len() == attrs.len() && forall|i: int| 0 <= i < attrs.len() ==> attribute_state(#[trigger] raw[i]) == attrs[i]@
}

/// An opaque handle on an object; the null handle (zero) refers to none.
#[derive(Debug)]
pub struct ObjectHandle(u64);

impl View for ObjectHandle {
    type V = u64;

    closed spec fn view(&self) -> u64 {
        self.0
    }
}

impl ObjectHandle {
    /// The handle of a raw handle; the null handle is `BadParameters`.
    pub fn from_raw(raw: u64) -> (r: Result<ObjectHandle>)
        ensures
            r is Ok <==> raw != 0,
            r matches Ok(h) ==> h@ == raw,
            r matches Err(e) ==> is_kind_error(e, ErrorKind::BadParameters),
    {
        if raw == 0 {
            return Err(Error::from_kind(ErrorKind::BadParameters));
        }
        Ok(ObjectHandle(raw))
    }

    /// The raw handle.
    pub fn handle(&self) -> (h: u64)
        ensures
            h == self@,
    {
        self.0
    }

    /// Gives the handle up without closing it, for a handle that is freed
    /// elsewhere.
    pub fn forget(self) -> (h: ObjectHandle)
        ensures
            h@ == 0,
    {
        ObjectHandle(0)
    }

    /// The null handle.
    pub fn new_null() -> (h: ObjectHandle)
        ensures
            h@ == 0,
    {
        ObjectHandle(0)
    }

    /// The handle is null.
    pub fn is_null(&self) -> (b: bool)
        ensures
            b == (self@ == 0),
    {
        self.0 == 0
    }

    /// What dropping the handle asks of the TEE: to close it, unless it is
    /// null.
    pub fn close_call(&self) -> (c: Option<ObjectCall>)
        ensures
            self@ == 0 ==> c is None,
            self@ != 0 ==> c == Some(ObjectCall::Close { handle: self@ }),
    {
        if self.0 == 0 {
            None
        } else {
            Some(ObjectCall::Close { handle: self.0 })
        }
    }
}

/// A handle that a TEE call of `status` gave: the error of the status unless
/// it is success, and a null handle is `BadParameters`.
pub open spec fn handle_reply(status: u32, raw: u64, r: Result<ObjectHandle>) -> bool {
    &&& status != TEE_SUCCESS ==> (r matches Err(e) && is_code_error(e, status))
    &&& status == TEE_SUCCESS && raw == 0 ==> (r matches Err(e) && is_kind_error(
        e,
        ErrorKind::BadParameters,
    ))
    &&& status == TEE_SUCCESS && raw != 0 ==> (r matches Ok(h) && h@ == raw)
}

fn handle_from_reply(status: u32, raw: u64) -> (r: Result<ObjectHandle>)
    ensures
        handle_reply(status, raw, r),
{
    if status == TEE_SUCCESS {
        ObjectHandle::from_raw(raw)
    } else {
        Err(Error::from_raw_error(status))
    }
}

/// What every object offers: its handle, and the calls that read its
/// information and attributes.
pub trait GenericObject {
    spec fn spec_handle(&self) -> u64;

    /// The raw handle.
    fn handle(&self) -> (h: u64)
        ensures
            h == self.spec_handle(),
    ;

    /// The call that reads the object's information; its reply goes through
    /// `ObjectInfo::from_reply`.
    fn info(&self) -> (c: ObjectCall)
        ensures
            c == (ObjectCall::GetInfo { handle: self.spec_handle() }),
    {
        ObjectCall::GetInfo { handle: self.handle() }
    }

    /// The call that restricts the object's usage to `obj_usage`.
    fn restrict_usage(&mut self, obj_usage: UsageFlag) -> (c: ObjectCall)
        ensures
            c == (ObjectCall::RestrictUsage { handle: old(self).spec_handle(), usage: obj_usage.spec_bits() }),
            final(self).spec_handle() == old(self).spec_handle(),
    {
        ObjectCall::RestrictUsage { handle: self.handle(), usage: obj_usage.bits() }
    }

    /// The call that reads the buffer attribute `id` into a buffer of
    /// `capacity` bytes.
    fn ref_attribute(&self, id: AttributeId, capacity: usize) -> (c: ObjectCall)
        ensures
            c == (ObjectCall::GetBufferAttribute {
                handle: self.spec_handle(),
                id: attribute_code(id),
                capacity,
            }),
    {
        ObjectCall::GetBufferAttribute { handle: self.handle(), id: id.code(), capacity }
    }

    /// The call that reads the value attribute `id`.
    fn value_attribute(&self, id: u32) -> (c: ObjectCall)
        ensures
            c == (ObjectCall::GetValueAttribute { handle: self.spec_handle(), id }),
    {
        ObjectCall::GetValueAttribute { handle: self.handle(), id }
    }
}

impl GenericObject for ObjectHandle {
    open spec fn spec_handle(&self) -> u64 {
        self@
    }

    fn handle(&self) -> (h: u64) {
        self.0
    }
}

/// An object that lives as long as its handle.
#[derive(Debug)]
pub struct TransientObject(ObjectHandle);

impl View for TransientObject {
    type V = u64;

    closed spec fn view(&self) -> u64 {
        self.0@
    }
}

impl TransientObject {
    /// An object with a null handle.
    pub fn null_object() -> (o: TransientObject)
        ensures
            o@ == 0,
    {
        TransientObject(ObjectHandle::new_null())
    }

    /// The object's handle is null.
    pub fn is_null_object(&self) -> (b: bool)
        ensures
            b == (self@ == 0),
    {
        self.0.is_null()
    }

    /// The call that allocates an object of the type, of at most
    /// `max_object_size` bits (the size goes to the TEE as 32 bits).
    pub fn allocation(object_type: TransientObjectType, max_object_size: usize) -> (c: ObjectCall)
        ensures
            c == (ObjectCall::AllocateTransient {
                object_type: object_type_code(object_type),
                max_object_size: max_object_size as u32,
            }),
    {
        ObjectCall::AllocateTransient {
            object_type: object_type.code(),
            max_object_size: max_object_size as u32,
        }
    }

    /// The object that the allocation returned with `status` and `handle`.
    pub fn allocate(status: u32, handle: u64) -> (r: Result<TransientObject>)
        ensures
            status != TEE_SUCCESS ==> (r matches Err(e) && is_code_error(e, status)),
            status == TEE_SUCCESS && handle == 0 ==> (r matches Err(e) && is_kind_error(
                e,
                ErrorKind::BadParameters,
            )),
            status == TEE_SUCCESS && handle != 0 ==> (r matches Ok(o) && o@ == handle),
    {
        match handle_from_reply(status, handle) {
            Ok(h) => Ok(TransientObject(h)),
            Err(e) => Err(e),
        }
    }

    /// The call that resets the object to its state after allocation.
    pub fn reset(&mut self) -> (c: ObjectCall)
        ensures
            c == (ObjectCall::ResetTransient { handle: old(self)@ }),
            final(self)@ == old(self)@,
    {
        ObjectCall::ResetTransient { handle: self.0.handle() }
    }

    /// The call that populates the object with the attributes.
    pub fn populate(&mut self, attrs: &[Attribute]) -> (c: ObjectCall)
        ensures
            c matches ObjectCall::Populate { handle, attrs: raw } && handle == old(self)@
                && hands_attributes(raw@, attrs@),
            final(self)@ == old(self)@,
    {
        ObjectCall::Populate { handle: self.0.handle(), attrs: raw_attributes(attrs) }
    }

    /// The call that copies the attributes of `src_object` into this one.
    pub fn copy_attribute_from<T: GenericObject>(&mut self, src_object: &T) -> (c: ObjectCall)
        ensures
            c == (ObjectCall::CopyAttributes { dst: old(self)@, src: src_object.spec_handle() }),
            final(self)@ == old(self)@,
    {
        ObjectCall::CopyAttributes { dst: self.0.handle(), src: src_object.handle() }
    }

    /// The call that generates a key of `key_size` bits into the object
    /// (the size goes to the TEE as 32 bits).
    pub fn generate_key(&self, key_size: usize, params: &[Attribute]) -> (c: ObjectCall)
        ensures
            c matches ObjectCall::GenerateKey { handle, key_size: k, params: raw } && handle
                == self@ && k == key_size as u32 && hands_attributes(raw@, params@),
    {
        ObjectCall::GenerateKey {
            handle: self.0.handle(),
            key_size: key_size as u32,
            params: raw_attributes(params),
        }
    }

    /// What dropping the object asks of the TEE.
    pub fn close_call(&self) -> (c: Option<ObjectCall>)
        ensures
            self@ == 0 ==> c is None,
            self@ != 0 ==> c == Some(ObjectCall::Close { handle: self@ }),
    {
        self.0.close_call()
    }
}

impl GenericObject for TransientObject {
    open spec fn spec_handle(&self) -> u64 {
        self@
    }

    fn handle(&self) -> (h: u64) {
        self.0.handle()
    }
}

/// An object in the TEE's storage.
#[derive(Debug)]
pub struct PersistentObject(ObjectHandle);

impl View for PersistentObject {
    type V = u64;

    closed spec fn view(&self) -> u64 {
        self.0@
    }
}

impl PersistentObject {
    /// The call that opens the object `object_id` of the storage.
    pub fn open_call(storage_id: ObjectStorageConstants, object_id: &[u8], flags: DataFlag) -> (c:
        ObjectCall)
        ensures
            c matches ObjectCall::OpenPersistent { storage_id: s, object_id: id, flags: f } && s
                == storage_code(storage_id) && id@ == object_id@ && f == flags.spec_bits(),
    {
        ObjectCall::OpenPersistent {
            storage_id: storage_id.code(),
            object_id: vstd::slice::slice_to_vec(object_id),
            flags: flags.bits(),
        }
    }

    /// The object that opening or creating returned with `status` and
    /// `handle`.
    pub fn open(status: u32, handle: u64) -> (r: Result<PersistentObject>)
        ensures
            status != TEE_SUCCESS ==> (r matches Err(e) && is_code_error(e, status)),
            status == TEE_SUCCESS && handle == 0 ==> (r matches Err(e) && is_kind_error(
                e,
                ErrorKind::BadParameters,
            )),
            status == TEE_SUCCESS && handle != 0 ==> (r matches Ok(o) && o@ == handle),
    {
        match handle_from_reply(status, handle) {
            Ok(h) => Ok(PersistentObject(h)),
            Err(e) => Err(e),
        }
    }

    /// The call that creates the object `object_id` in the storage, with the
    /// attributes of `attributes` (none for a null handle) and the initial
    /// data.
    pub fn create_call(
        storage_id: ObjectStorageConstants,
        object_id: &[u8],
        flags: DataFlag,
        attributes: Option<&ObjectHandle>,
        initial_data: &[u8],
    ) -> (c: ObjectCall)
        ensures
            c matches ObjectCall::CreatePersistent {
                storage_id: s,
                object_id: id,
                flags: f,
                attributes: a,
                initial_data: d,
            } && s == storage_code(storage_id) && id@ == object_id@ && f == flags.spec_bits() && a
                == (match attributes {
                Some(h) => h@,
                None => 0u64,
            }) && d@ == initial_data@,
    {
        let a = match attributes {
            Some(h) => h.handle(),
            None => 0,
        };
        ObjectCall::CreatePersistent {
            storage_id: storage_id.code(),
            object_id: vstd::slice::slice_to_vec(object_id),
            flags: flags.bits(),
            attributes: a,
            initial_data: vstd::slice::slice_to_vec(initial_data),
        }
    }

    /// The object that creating returned with `status` and `handle`.
    pub fn create(status: u32, handle: u64) -> (r: Result<PersistentObject>)
        ensures
            status != TEE_SUCCESS ==> (r matches Err(e) && is_code_error(e, status)),
            status == TEE_SUCCESS && handle == 0 ==> (r matches Err(e) && is_kind_error(
                e,
                ErrorKind::BadParameters,
            )),
            status == TEE_SUCCESS && handle != 0 ==> (r matches Ok(o) && o@ == handle),
    {
        Self::open(status, handle)
    }

    /// The call that closes and deletes the object.
    pub fn close_and_delete_call(&self) -> (c: ObjectCall)
        ensures
            c == (ObjectCall::CloseAndDelete { handle: self@ }),
    {
        ObjectCall::CloseAndDelete { handle: self.0.handle() }
    }

    /// Gives the object up after the close-and-delete call returned
    /// `status`: whatever it returned, the handle is gone and is not closed
    /// again.
    pub fn close_and_delete(self, status: u32) -> (r: (Result<()>, ObjectHandle))
        ensures
            status == TEE_SUCCESS <==> r.0 is Ok,
            r.0 matches Err(e) ==> is_code_error(e, status),
            r.1@ == 0,
    {
        let result = crate::error::check_status(status);
        let h = self.0.forget();
        (result, h)
    }

    /// The call that renames the object.
    pub fn rename(&mut self, new_object_id: &[u8]) -> (c: ObjectCall)
        ensures
            c matches ObjectCall::Rename { handle, new_object_id: id } && handle == old(self)@
                && id@ == new_object_id@,
            final(self)@ == old(self)@,
    {
        ObjectCall::Rename {
            handle: self.0.handle(),
            new_object_id: vstd::slice::slice_to_vec(new_object_id),
        }
    }

    /// The call that reads up to `capacity` bytes of the object's data.
    pub fn read(&self, capacity: usize) -> (c: ObjectCall)
        ensures
            c == (ObjectCall::Read { handle: self@, capacity }),
    {
        ObjectCall::Read { handle: self.0.handle(), capacity }
    }

    /// The call that writes `buf` to the object's data.
    pub fn write(&mut self, buf: &[u8]) -> (c: ObjectCall)
        ensures
            c matches ObjectCall::Write { handle, data } && handle == old(self)@ && data@ == buf@,
            final(self)@ == old(self)@,
    {
        ObjectCall::Write { handle: self.0.handle(), data: vstd::slice::slice_to_vec(buf) }
    }

    /// The call that truncates the object's data to `size` bytes.
    pub fn truncate(&self, size: u32) -> (c: ObjectCall)
        ensures
            c == (ObjectCall::Truncate { handle: self@, size: size as usize }),
    {
        ObjectCall::Truncate { handle: self.0.handle(), size: size as usize }
    }

    /// The call that moves the data position by `offset` from `whence`.
    pub fn seek(&self, offset: i32, whence: Whence) -> (c: ObjectCall)
        ensures
            c == (ObjectCall::Seek { handle: self@, offset, whence: whence_code(whence) }),
    {
        ObjectCall::Seek { handle: self.0.handle(), offset, whence: whence.code() }
    }

    /// What dropping the object asks of the TEE.
    pub fn close_call(&self) -> (c: Option<ObjectCall>)
        ensures
            self@ == 0 ==> c is None,
            self@ != 0 ==> c == Some(ObjectCall::Close { handle: self@ }),
    {
        self.0.close_call()
    }
}

impl GenericObject for PersistentObject {
    open spec fn spec_handle(&self) -> u64 {
        self@
    }

    fn handle(&self) -> (h: u64) {
        self.0.handle()
    }
}

/// The number of bytes that a read returned with `status` and `count`, as a
/// 32-bit count.
pub fn read_count(status: u32, count: usize) -> (r: Result<u32>)
    ensures
        status == TEE_SUCCESS ==> r == Ok::<u32, Error>(count as u32),
        status != TEE_SUCCESS ==> (r matches Err(e) && is_code_error(e, status)),
{
    crate::error::value_on_success(status, count as u32)
}

/// An enumerator of the persistent objects of a storage.
pub struct ObjectEnumHandle {
    raw: u64,
}

impl ObjectEnumHandle {
    pub closed spec fn spec_raw(&self) -> u64 {
        self.raw
    }

    /// The enumerator that the allocation returned with `status` and
    /// `handle`.
    pub fn allocate(status: u32, handle: u64) -> (r: Result<ObjectEnumHandle>)
        ensures
            status == TEE_SUCCESS ==> (r matches Ok(h) && h.spec_raw() == handle),
            status != TEE_SUCCESS ==> (r matches Err(e) && is_code_error(e, status)),
    {
        if status == TEE_SUCCESS {
            Ok(ObjectEnumHandle { raw: handle })
        } else {
            Err(Error::from_raw_error(status))
        }
    }

    /// The raw handle of the enumerator.
    pub fn handle(&self) -> (h: u64)
        ensures
            h == self.spec_raw(),
    {
        self.raw
    }

    /// The call that allocates an enumerator; its reply goes through
    /// `allocate`.
    pub fn allocation() -> (c: ObjectCall)
        ensures
            c == ObjectCall::AllocateEnumerator,
    {
        ObjectCall::AllocateEnumerator
    }

    /// The call that resets the enumerator.
    pub fn reset(&mut self) -> (c: ObjectCall)
        ensures
            c == (ObjectCall::ResetEnumerator { handle: old(self).spec_raw() }),
            final(self).spec_raw() == old(self).spec_raw(),
    {
        ObjectCall::ResetEnumerator { handle: self.raw }
    }

    /// The call that starts enumerating the objects of the storage; its
    /// status goes through `check_status`.
    pub fn start(&mut self, storage_id: u32) -> (c: ObjectCall)
        ensures
            c == (ObjectCall::StartEnumerator { handle: old(self).spec_raw(), storage_id }),
            final(self).spec_raw() == old(self).spec_raw(),
    {
        ObjectCall::StartEnumerator { handle: self.raw, storage_id }
    }

    /// The call that reads the next object's information and identifier,
    /// into a buffer of `id_capacity` bytes; its reply goes through
    /// `next_object_id_len`.
    pub fn get_next(&mut self, id_capacity: usize) -> (c: ObjectCall)
        ensures
            c == (ObjectCall::NextObject { handle: old(self).spec_raw(), id_capacity }),
            final(self).spec_raw() == old(self).spec_raw(),
    {
        ObjectCall::NextObject { handle: self.raw, id_capacity }
    }

    /// What dropping the enumerator asks of the TEE: to free it.
    pub fn free_call(&self) -> (c: ObjectCall)
        ensures
            c == (ObjectCall::FreeEnumerator { handle: self.spec_raw() }),
    {
        ObjectCall::FreeEnumerator { handle: self.raw }
    }
}

/// The length of the next object's identifier that the enumerator returned
/// with `status`, as 32 bits.
pub fn next_object_id_len(status: u32, id_len: usize) -> (r: Result<u32>)
    ensures
        status == TEE_SUCCESS ==> r == Ok::<u32, Error>(id_len as u32),
        status != TEE_SUCCESS ==> (r matches Err(e) && is_code_error(e, status)),
{
    crate::error::value_on_success(status, id_len as u32)
}

/// The union of two sets of flags contains each of them, and a set of
/// flags contains the empty set.
pub proof fn lemma_flags_union_contains(a: u32, b: u32)
    by (bit_vector)
    ensures
        (a | b) & a == a,
        (a | b) & b == b,
        a & 0 == 0,
{
}

} // verus!
