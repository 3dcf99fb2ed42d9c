//! Properties of the TEE, of the current TA and of its client: the sets
//! they belong to, their keys, and how the TEE's answers to a property query
//! are read.

use vstd::prelude::*;
use crate::defines::{TEE_ERROR_SHORT_BUFFER, TEE_SUCCESS};
use crate::error::{Error, ErrorKind, Result, is_code_error, is_kind_error};
use crate::identity::Identity;
use crate::uuid::Uuid;

verus! {

/// A set of properties.
#[derive(Clone, Copy, Debug, PartialEq, Eq, Structural)]
pub enum PropertySet {
    TeeImplementation,
    CurrentClient,
    CurrentTa,
}

/// The pseudo-handle of each set.
pub open spec fn property_set_handle(s: PropertySet) -> u64 {
    match s {
        PropertySet::TeeImplementation => 0xFFFF_FFFD,
        PropertySet::CurrentClient => 0xFFFF_FFFE,
        PropertySet::CurrentTa => 0xFFFF_FFFF,
    }
}

impl PropertySet {
    /// The pseudo-handle of the set.
    pub fn as_raw(&self) -> (h: u64)
        ensures
            h == property_set_handle(*self),
    {
        match self {
            PropertySet::TeeImplementation => 0xFFFF_FFFD,
            PropertySet::CurrentClient => 0xFFFF_FFFE,
            PropertySet::CurrentTa => 0xFFFF_FFFF,
        }
    }
}

/// The getter of the TEE that reads a property of a type.
#[derive(Clone, Copy, Debug, PartialEq, Eq, Structural)]
pub enum PropertyGetter {
    AsString,
    AsBool,
    AsU32,
    AsU64,
    AsBinaryBlock,
    AsUuid,
    AsIdentity,
}

/// The type of a property's value: which getter of the TEE reads it.
pub trait PropertyValue: Sized {
    spec fn spec_getter() -> PropertyGetter;

    /// The getter that reads a value of this type.
    fn getter() -> (g: PropertyGetter)
        ensures
            g == Self::spec_getter(),
    ;
}

impl PropertyValue for String {
    open spec fn spec_getter() -> PropertyGetter {
        PropertyGetter::AsString
    }

    fn getter() -> (g: PropertyGetter) {
        PropertyGetter::AsString
    }
}

impl PropertyValue for bool {
    open spec fn spec_getter() -> PropertyGetter {
        PropertyGetter::AsBool
    }

    fn getter() -> (g: PropertyGetter) {
        PropertyGetter::AsBool
    }
}

impl PropertyValue for u32 {
    open spec fn spec_getter() -> PropertyGetter {
        PropertyGetter::AsU32
    }

    fn getter() -> (g: PropertyGetter) {
        PropertyGetter::AsU32
    }
}

impl PropertyValue for u64 {
    open spec fn spec_getter() -> PropertyGetter {
        PropertyGetter::AsU64
    }

    fn getter() -> (g: PropertyGetter) {
        PropertyGetter::AsU64
    }
}

impl PropertyValue for Vec<u8> {
    open spec fn spec_getter() -> PropertyGetter {
        PropertyGetter::AsBinaryBlock
    }

    fn getter() -> (g: PropertyGetter) {
        PropertyGetter::AsBinaryBlock
    }
}

impl PropertyValue for Uuid {
    open spec fn spec_getter() -> PropertyGetter {
        PropertyGetter::AsUuid
    }

    fn getter() -> (g: PropertyGetter) {
        PropertyGetter::AsUuid
    }
}

impl PropertyValue for Identity {
    open spec fn spec_getter() -> PropertyGetter {
        PropertyGetter::AsIdentity
    }

    fn getter() -> (g: PropertyGetter) {
        PropertyGetter::AsIdentity
    }
}

/// A property: its key, the set it belongs to, and the type of its value.
pub trait PropertyKey {
    type Output: PropertyValue;

    spec fn spec_key() -> Seq<char>;

    spec fn spec_set() -> PropertySet;

    /// The key of the property.
    fn key(&self) -> (k: &'static str)
        ensures
            k@ == Self::spec_key(),
    ;

    /// The set of the property.
    fn set(&self) -> (s: PropertySet)
        ensures
            s == Self::spec_set(),
    ;
}

/// What the first query of a string or binary property, made with no
/// buffer, says.
pub enum SizeOutcome {
    /// The value is empty.
    Empty,
    /// The value needs a buffer of this many bytes; query again with one.
    Fetch(usize),
    /// The query failed.
    Failed(Error),
}

/// What the first query of a string or binary property, which returned
/// `status` and the size `out_size`, says: success with size zero is an
/// empty value and with any other size `Generic`; a short buffer calls for a
/// second query with a buffer of `out_size` bytes; any other status is its
/// error.
pub fn size_query_outcome(status: u32, out_size: usize) -> (o: SizeOutcome)
    ensures
        status == TEE_SUCCESS && out_size == 0 ==> o is Empty,
        status == TEE_SUCCESS && out_size != 0 ==> (o matches SizeOutcome::Failed(e) && is_kind_error(
            e,
            ErrorKind::Generic,
        )),
        status == TEE_ERROR_SHORT_BUFFER ==> o == SizeOutcome::Fetch(out_size),
        status != TEE_SUCCESS && status != TEE_ERROR_SHORT_BUFFER ==> (o matches SizeOutcome::Failed(e)
            && is_code_error(e, status)),
{
    if status == TEE_SUCCESS {
        if out_size == 0 {
            SizeOutcome::Empty
        } else {
            SizeOutcome::Failed(Error::from_kind(ErrorKind::Generic))
        }
    } else if status == TEE_ERROR_SHORT_BUFFER {
        SizeOutcome::Fetch(out_size)
    } else {
        SizeOutcome::Failed(Error::from_raw_error(status))
    }
}

/// The bytes are a C string: they end with a zero byte and hold no other.
pub open spec fn is_c_string(b: Seq<u8>) -> bool {
    b.len() > 0 && b.last() == 0 && forall|i: int| 0 <= i < b.len() - 1 ==> b[i] != 0
}

/// The text of bytes decoded as UTF-8, with each invalid sequence replaced,
/// as `String::from_utf8_lossy` decodes them.
pub uninterp spec fn lossy_utf8(b: Seq<u8>) -> Seq<char>;

/// ASCII bytes decode to the characters of the same codes.
pub open spec fn ascii_text(b: Seq<u8>) -> Seq<char> {
    Seq::new(b.len(), |i: int| b[i] as char)
}

/// Calls `String::from_utf8_lossy`: the bytes decoded as UTF-8, each
/// invalid sequence replaced; bytes that are all ASCII decode to the
/// characters of the same codes.
#[verifier::external_body]
fn utf8_lossy(b: &[u8]) -> (s: String)
    ensures
        s@ == lossy_utf8(b@),
        (forall|i: int| 0 <= i < b@.len() ==> b@[i] < 128) ==> s@ == ascii_text(b@),
{
    String::from_utf8_lossy(b).into_owned()
}

/// The string that the second query of a string property returned, with
/// `status` and the buffer it filled: the error of the status unless it is
/// success, `BadFormat` unless the buffer is a C string, else its text
/// before the zero byte.
pub fn string_from_reply(status: u32, buffer: &[u8]) -> (r: Result<String>)
    ensures
        status != TEE_SUCCESS ==> (r matches Err(e) && is_code_error(e, status)),
        status == TEE_SUCCESS && !is_c_string(buffer@) ==> (r matches Err(e) && is_kind_error(
            e,
            ErrorKind::BadFormat,
        )),
        status == TEE_SUCCESS && is_c_string(buffer@) ==> (r matches Ok(s) && s@ == lossy_utf8(
            buffer@.drop_last(),
        )),
{
    if status != TEE_SUCCESS {
        return Err(Error::from_raw_error(status));
    }
    let n = buffer.len();
    if n == 0 || buffer[n - 1] != 0 {
        return Err(Error::from_kind(ErrorKind::BadFormat));
    }
    let mut i: usize = 0;
    while i < n - 1
        invariant
            status == TEE_SUCCESS,
            n == buffer@.len(),
            n > 0,
            i <= n - 1,
            forall|k: int| 0 <= k < i ==> buffer@[k] != 0,
        decreases n - 1 - i,
    {
        if buffer[i] == 0 {
            return Err(Error::from_kind(ErrorKind::BadFormat));
        }
        i = i + 1;
    }
    let text = &buffer[0..n - 1];
    assert(text@ =~= buffer@.drop_last());
    Ok(utf8_lossy(text))
}

/// The bytes that the second query of a binary property returned, with
/// `status` and the buffer it filled: the error of the status unless it is
/// success, else the buffer.
pub fn blob_from_reply(status: u32, buffer: Vec<u8>) -> (r: Result<Vec<u8>>)
    ensures
        status != TEE_SUCCESS ==> (r matches Err(e) && is_code_error(e, status)),
        status == TEE_SUCCESS ==> (r matches Ok(b) && b@ == buffer@),
{
    if status != TEE_SUCCESS {
        return Err(Error::from_raw_error(status));
    }
    Ok(buffer)
}

/// The property "gpd.ta.appID".
pub struct TaAppId;

impl PropertyKey for TaAppId {
    type Output = Uuid;

    open spec fn spec_key() -> Seq<char> {
        "gpd.ta.appID"@
    }

    open spec fn spec_set() -> PropertySet {
        PropertySet::CurrentTa
    }

    fn key(&self) -> (k: &'static str) {
        proof {
            reveal_strlit("gpd.ta.appID");
        }
        "gpd.ta.appID"
    }

    fn set(&self) -> (s: PropertySet) {
        PropertySet::CurrentTa
    }
}

/// The property "gpd.ta.singleInstance".
pub struct TaSingleInstance;

impl PropertyKey for TaSingleInstance {
    type Output = bool;

    open spec fn spec_key() -> Seq<char> {
        "gpd.ta.singleInstance"@
    }

    open spec fn spec_set() -> PropertySet {
        PropertySet::CurrentTa
    }

    fn key(&self) -> (k: &'static str) {
        proof {
            reveal_strlit("gpd.ta.singleInstance");
        }
        "gpd.ta.singleInstance"
    }

    fn set(&self) -> (s: PropertySet) {
        PropertySet::CurrentTa
    }
}

/// The property "gpd.ta.multiSession".
pub struct TaMultiSession;

impl PropertyKey for TaMultiSession {
    type Output = bool;

    open spec fn spec_key() -> Seq<char> {
        "gpd.ta.multiSession"@
    }

    open spec fn spec_set() -> PropertySet {
        PropertySet::CurrentTa
    }

    fn key(&self) -> (k: &'static str) {
        proof {
            reveal_strlit("gpd.ta.multiSession");
        }
        "gpd.ta.multiSession"
    }

    fn set(&self) -> (s: PropertySet) {
        PropertySet::CurrentTa
    }
}

/// The property "gpd.ta.instanceKeepAlive".
pub struct TaInstanceKeepAlive;

impl PropertyKey for TaInstanceKeepAlive {
    type Output = bool;

    open spec fn spec_key() -> Seq<char> {
        "gpd.ta.instanceKeepAlive"@
    }

    open spec fn spec_set() -> PropertySet {
        PropertySet::CurrentTa
    }

    fn key(&self) -> (k: &'static str) {
        proof {
            reveal_strlit("gpd.ta.instanceKeepAlive");
        }
        "gpd.ta.instanceKeepAlive"
    }

    fn set(&self) -> (s: PropertySet) {
        PropertySet::CurrentTa
    }
}

/// The property "gpd.ta.dataSize".
pub struct TaDataSize;

impl PropertyKey for TaDataSize {
    type Output = u32;

    open spec fn spec_key() -> Seq<char> {
        "gpd.ta.dataSize"@
    }

    open spec fn spec_set() -> PropertySet {
        PropertySet::CurrentTa
    }

    fn key(&self) -> (k: &'static str) {
        proof {
            reveal_strlit("gpd.ta.dataSize");
        }
        "gpd.ta.dataSize"
    }

    fn set(&self) -> (s: PropertySet) {
        PropertySet::CurrentTa
    }
}

/// The property "gpd.ta.stackSize".
pub struct TaStackSize;

impl PropertyKey for TaStackSize {
    type Output = u32;

    open spec fn spec_key() -> Seq<char> {
        "gpd.ta.stackSize"@
    }

    open spec fn spec_set() -> PropertySet {
        PropertySet::CurrentTa
    }

    fn key(&self) -> (k: &'static str) {
        proof {
            reveal_strlit("gpd.ta.stackSize");
        }
        "gpd.ta.stackSize"
    }

    fn set(&self) -> (s: PropertySet) {
        PropertySet::CurrentTa
    }
}

/// The property "gpd.ta.version".
pub struct TaVersion;

impl PropertyKey for TaVersion {
    type Output = String;

    open spec fn spec_key() -> Seq<char> {
        "gpd.ta.version"@
    }

    open spec fn spec_set() -> PropertySet {
        PropertySet::CurrentTa
    }

    fn key(&self) -> (k: &'static str) {
        proof {
            reveal_strlit("gpd.ta.version");
        }
        "gpd.ta.version"
    }

    fn set(&self) -> (s: PropertySet) {
        PropertySet::CurrentTa
    }
}

/// The property "gpd.ta.description".
pub struct TaDescription;

impl PropertyKey for TaDescription {
    type Output = String;

    open spec fn spec_key() -> Seq<char> {
        "gpd.ta.description"@
    }

    open spec fn spec_set() -> PropertySet {
        PropertySet::CurrentTa
    }

    fn key(&self) -> (k: &'static str) {
        proof {
            reveal_strlit("gpd.ta.description");
        }
        "gpd.ta.description"
    }

    fn set(&self) -> (s: PropertySet) {
        PropertySet::CurrentTa
    }
}

/// The property "gpd.ta.endian".
pub struct TaEndian;

impl PropertyKey for TaEndian {
    type Output = u32;

    open spec fn spec_key() -> Seq<char> {
        "gpd.ta.endian"@
    }

    open spec fn spec_set() -> PropertySet {
        PropertySet::CurrentTa
    }

    fn key(&self) -> (k: &'static str) {
        proof {
            reveal_strlit("gpd.ta.endian");
        }
        "gpd.ta.endian"
    }

    fn set(&self) -> (s: PropertySet) {
        PropertySet::CurrentTa
    }
}

/// The property "gpd.ta.doesNotCloseHandleOnCorruptObject".
pub struct TaDoesNotCloseHandleOnCorruptObject;

impl PropertyKey for TaDoesNotCloseHandleOnCorruptObject {
    type Output = bool;

    open spec fn spec_key() -> Seq<char> {
        "gpd.ta.doesNotCloseHandleOnCorruptObject"@
    }

    open spec fn spec_set() -> PropertySet {
        PropertySet::CurrentTa
    }

    fn key(&self) -> (k: &'static str) {
        proof {
            reveal_strlit("gpd.ta.doesNotCloseHandleOnCorruptObject");
        }
        "gpd.ta.doesNotCloseHandleOnCorruptObject"
    }

    fn set(&self) -> (s: PropertySet) {
        PropertySet::CurrentTa
    }
}

/// The property "gpd.client.identity".
pub struct ClientIdentity;

impl PropertyKey for ClientIdentity {
    type Output = Identity;

    open spec fn spec_key() -> Seq<char> {
        "gpd.client.identity"@
    }

    open spec fn spec_set() -> PropertySet {
        PropertySet::CurrentClient
    }

    fn key(&self) -> (k: &'static str) {
        proof {
            reveal_strlit("gpd.client.identity");
        }
        "gpd.client.identity"
    }

    fn set(&self) -> (s: PropertySet) {
        PropertySet::CurrentClient
    }
}

/// The property "gpd.client.endian".
pub struct ClientEndian;

impl PropertyKey for ClientEndian {
    type Output = u32;

    open spec fn spec_key() -> Seq<char> {
        "gpd.client.endian"@
    }

    open spec fn spec_set() -> PropertySet {
        PropertySet::CurrentClient
    }

    fn key(&self) -> (k: &'static str) {
        proof {
            reveal_strlit("gpd.client.endian");
        }
        "gpd.client.endian"
    }

    fn set(&self) -> (s: PropertySet) {
        PropertySet::CurrentClient
    }
}

/// The property "gpd.tee.apiversion".
pub struct TeeApiVersion;

impl PropertyKey for TeeApiVersion {
    type Output = String;

    open spec fn spec_key() -> Seq<char> {
        "gpd.tee.apiversion"@
    }

    open spec fn spec_set() -> PropertySet {
        PropertySet::TeeImplementation
    }

    fn key(&self) -> (k: &'static str) {
        proof {
            reveal_strlit("gpd.tee.apiversion");
        }
        "gpd.tee.apiversion"
    }

    fn set(&self) -> (s: PropertySet) {
        PropertySet::TeeImplementation
    }
}

/// The property "gpd.tee.internalCore.version".
pub struct TeeInternalCoreVersion;

impl PropertyKey for TeeInternalCoreVersion {
    type Output = u32;

    open spec fn spec_key() -> Seq<char> {
        "gpd.tee.internalCore.version"@
    }

    open spec fn spec_set() -> PropertySet {
        PropertySet::TeeImplementation
    }

    fn key(&self) -> (k: &'static str) {
        proof {
            reveal_strlit("gpd.tee.internalCore.version");
        }
        "gpd.tee.internalCore.version"
    }

    fn set(&self) -> (s: PropertySet) {
        PropertySet::TeeImplementation
    }
}

/// The property "gpd.tee.description".
pub struct TeeDescription;

impl PropertyKey for TeeDescription {
    type Output = String;

    open spec fn spec_key() -> Seq<char> {
        "gpd.tee.description"@
    }

    open spec fn spec_set() -> PropertySet {
        PropertySet::TeeImplementation
    }

    fn key(&self) -> (k: &'static str) {
        proof {
            reveal_strlit("gpd.tee.description");
        }
        "gpd.tee.description"
    }

    fn set(&self) -> (s: PropertySet) {
        PropertySet::TeeImplementation
    }
}

/// The property "gpd.tee.deviceID".
pub struct TeeDeviceId;

impl PropertyKey for TeeDeviceId {
    type Output = Uuid;

    open spec fn spec_key() -> Seq<char> {
        "gpd.tee.deviceID"@
    }

    open spec fn spec_set() -> PropertySet {
        PropertySet::TeeImplementation
    }

    fn key(&self) -> (k: &'static str) {
        proof {
            reveal_strlit("gpd.tee.deviceID");
        }
        "gpd.tee.deviceID"
    }

    fn set(&self) -> (s: PropertySet) {
        PropertySet::TeeImplementation
    }
}

/// The property "gpd.tee.systemTime.protectionLevel".
pub struct TeeSystemTimeProtectionLevel;

impl PropertyKey for TeeSystemTimeProtectionLevel {
    type Output = u32;

    open spec fn spec_key() -> Seq<char> {
        "gpd.tee.systemTime.protectionLevel"@
    }

    open spec fn spec_set() -> PropertySet {
        PropertySet::TeeImplementation
    }

    fn key(&self) -> (k: &'static str) {
        proof {
            reveal_strlit("gpd.tee.systemTime.protectionLevel");
        }
        "gpd.tee.systemTime.protectionLevel"
    }

    fn set(&self) -> (s: PropertySet) {
        PropertySet::TeeImplementation
    }
}

/// The property "gpd.tee.TAPersistentTime.protectionLevel".
pub struct TeeTaPersistentTimeProtectionLevel;

impl PropertyKey for TeeTaPersistentTimeProtectionLevel {
    type Output = u32;

    open spec fn spec_key() -> Seq<char> {
        "gpd.tee.TAPersistentTime.protectionLevel"@
    }

    open spec fn spec_set() -> PropertySet {
        PropertySet::TeeImplementation
    }

    fn key(&self) -> (k: &'static str) {
        proof {
            reveal_strlit("gpd.tee.TAPersistentTime.protectionLevel");
        }
        "gpd.tee.TAPersistentTime.protectionLevel"
    }

    fn set(&self) -> (s: PropertySet) {
        PropertySet::TeeImplementation
    }
}

/// The property "gpd.tee.arith.maxBigIntSize".
pub struct TeeArithMaxBigIntSize;

impl PropertyKey for TeeArithMaxBigIntSize {
    type Output = u32;

    open spec fn spec_key() -> Seq<char> {
        "gpd.tee.arith.maxBigIntSize"@
    }

    open spec fn spec_set() -> PropertySet {
        PropertySet::TeeImplementation
    }

    fn key(&self) -> (k: &'static str) {
        proof {
            reveal_strlit("gpd.tee.arith.maxBigIntSize");
        }
        "gpd.tee.arith.maxBigIntSize"
    }

    fn set(&self) -> (s: PropertySet) {
        PropertySet::TeeImplementation
    }
}

/// The property "gpd.tee.cryptography.ecc".
pub struct TeeCryptographyEcc;

impl PropertyKey for TeeCryptographyEcc {
    type Output = bool;

    open spec fn spec_key() -> Seq<char> {
        "gpd.tee.cryptography.ecc"@
    }

    open spec fn spec_set() -> PropertySet {
        PropertySet::TeeImplementation
    }

    fn key(&self) -> (k: &'static str) {
        proof {
            reveal_strlit("gpd.tee.cryptography.ecc");
        }
        "gpd.tee.cryptography.ecc"
    }

    fn set(&self) -> (s: PropertySet) {
        PropertySet::TeeImplementation
    }
}

/// The property "gpd.tee.cryptography.nist".
pub struct TeeCryptographyNist;

impl PropertyKey for TeeCryptographyNist {
    type Output = bool;

    open spec fn spec_key() -> Seq<char> {
        "gpd.tee.cryptography.nist"@
    }

    open spec fn spec_set() -> PropertySet {
        PropertySet::TeeImplementation
    }

    fn key(&self) -> (k: &'static str) {
        proof {
            reveal_strlit("gpd.tee.cryptography.nist");
        }
        "gpd.tee.cryptography.nist"
    }

    fn set(&self) -> (s: PropertySet) {
        PropertySet::TeeImplementation
    }
}

/// The property "gpd.tee.cryptography.bsi-r".
pub struct TeeCryptographyBsiR;

impl PropertyKey for TeeCryptographyBsiR {
    type Output = bool;

    open spec fn spec_key() -> Seq<char> {
        "gpd.tee.cryptography.bsi-r"@
    }

    open spec fn spec_set() -> PropertySet {
        PropertySet::TeeImplementation
    }

    fn key(&self) -> (k: &'static str) {
        proof {
            reveal_strlit("gpd.tee.cryptography.bsi-r");
        }
        "gpd.tee.cryptography.bsi-r"
    }

    fn set(&self) -> (s: PropertySet) {
        PropertySet::TeeImplementation
    }
}

/// The property "gpd.tee.cryptography.bsi-t".
pub struct TeeCryptographyBsiT;

impl PropertyKey for TeeCryptographyBsiT {
    type Output = bool;

    open spec fn spec_key() -> Seq<char> {
        "gpd.tee.cryptography.bsi-t"@
    }

    open spec fn spec_set() -> PropertySet {
        PropertySet::TeeImplementation
    }

    fn key(&self) -> (k: &'static str) {
        proof {
            reveal_strlit("gpd.tee.cryptography.bsi-t");
        }
        "gpd.tee.cryptography.bsi-t"
    }

    fn set(&self) -> (s: PropertySet) {
        PropertySet::TeeImplementation
    }
}

/// The property "gpd.tee.cryptography.ietf".
pub struct TeeCryptographyIetf;

impl PropertyKey for TeeCryptographyIetf {
    type Output = bool;

    open spec fn spec_key() -> Seq<char> {
        "gpd.tee.cryptography.ietf"@
    }

    open spec fn spec_set() -> PropertySet {
        PropertySet::TeeImplementation
    }

    fn key(&self) -> (k: &'static str) {
        proof {
            reveal_strlit("gpd.tee.cryptography.ietf");
        }
        "gpd.tee.cryptography.ietf"
    }

    fn set(&self) -> (s: PropertySet) {
        PropertySet::TeeImplementation
    }
}

/// The property "gpd.tee.cryptography.octa".
pub struct TeeCryptographyOcta;

impl PropertyKey for TeeCryptographyOcta {
    type Output = bool;

    open spec fn spec_key() -> Seq<char> {
        "gpd.tee.cryptography.octa"@
    }

    open spec fn spec_set() -> PropertySet {
        PropertySet::TeeImplementation
    }

    fn key(&self) -> (k: &'static str) {
        proof {
            reveal_strlit("gpd.tee.cryptography.octa");
        }
        "gpd.tee.cryptography.octa"
    }

    fn set(&self) -> (s: PropertySet) {
        PropertySet::TeeImplementation
    }
}

/// The property "gpd.tee.trustedStorage.private.rollbackProtection".
pub struct TeeTrustedStoragePrivateRollbackProtection;

impl PropertyKey for TeeTrustedStoragePrivateRollbackProtection {
    type Output = u32;

    open spec fn spec_key() -> Seq<char> {
        "gpd.tee.trustedStorage.private.rollbackProtection"@
    }

    open spec fn spec_set() -> PropertySet {
        PropertySet::TeeImplementation
    }

    fn key(&self) -> (k: &'static str) {
        proof {
            reveal_strlit("gpd.tee.trustedStorage.private.rollbackProtection");
        }
        "gpd.tee.trustedStorage.private.rollbackProtection"
    }

    fn set(&self) -> (s: PropertySet) {
        PropertySet::TeeImplementation
    }
}

/// The property "gpd.tee.trustedStorage.perso.rollbackProtection".
pub struct TeeTrustedStoragePersoRollbackProtection;

impl PropertyKey for TeeTrustedStoragePersoRollbackProtection {
    type Output = u32;

    open spec fn spec_key() -> Seq<char> {
        "gpd.tee.trustedStorage.perso.rollbackProtection"@
    }

    open spec fn spec_set() -> PropertySet {
        PropertySet::TeeImplementation
    }

    fn key(&self) -> (k: &'static str) {
        proof {
            reveal_strlit("gpd.tee.trustedStorage.perso.rollbackProtection");
        }
        "gpd.tee.trustedStorage.perso.rollbackProtection"
    }

    fn set(&self) -> (s: PropertySet) {
        PropertySet::TeeImplementation
    }
}

/// The property "gpd.tee.trustedStorage.protected.rollbackProtection".
pub struct TeeTrustedStorageProtectedRollbackProtection;

impl PropertyKey for TeeTrustedStorageProtectedRollbackProtection {
    type Output = u32;

    open spec fn spec_key() -> Seq<char> {
        "gpd.tee.trustedStorage.protected.rollbackProtection"@
    }

    open spec fn spec_set() -> PropertySet {
        PropertySet::TeeImplementation
    }

    fn key(&self) -> (k: &'static str) {
        proof {
            reveal_strlit("gpd.tee.trustedStorage.protected.rollbackProtection");
        }
        "gpd.tee.trustedStorage.protected.rollbackProtection"
    }

    fn set(&self) -> (s: PropertySet) {
        PropertySet::TeeImplementation
    }
}

/// The property "gpd.tee.trustedStorage.antiRollback.protectionLevel".
pub struct TeeTrustedStorageAntiRollbackProtectionLevel;

impl PropertyKey for TeeTrustedStorageAntiRollbackProtectionLevel {
    type Output = u32;

    open spec fn spec_key() -> Seq<char> {
        "gpd.tee.trustedStorage.antiRollback.protectionLevel"@
    }

    open spec fn spec_set() -> PropertySet {
        PropertySet::TeeImplementation
    }

    fn key(&self) -> (k: &'static str) {
        proof {
            reveal_strlit("gpd.tee.trustedStorage.antiRollback.protectionLevel");
        }
        "gpd.tee.trustedStorage.antiRollback.protectionLevel"
    }

    fn set(&self) -> (s: PropertySet) {
        PropertySet::TeeImplementation
    }
}

/// The property "gpd.tee.trustedStorage.rollbackDetection.protectionLevel".
pub struct TeeTrustedStorageRollbackDetectionProtectionLevel;

impl PropertyKey for TeeTrustedStorageRollbackDetectionProtectionLevel {
    type Output = u32;

    open spec fn spec_key() -> Seq<char> {
        "gpd.tee.trustedStorage.rollbackDetection.protectionLevel"@
    }

    open spec fn spec_set() -> PropertySet {
        PropertySet::TeeImplementation
    }

    fn key(&self) -> (k: &'static str) {
        proof {
            reveal_strlit("gpd.tee.trustedStorage.rollbackDetection.protectionLevel");
        }
        "gpd.tee.trustedStorage.rollbackDetection.protectionLevel"
    }

    fn set(&self) -> (s: PropertySet) {
        PropertySet::TeeImplementation
    }
}

/// The property "gpd.tee.trustedos.implementation.version".
pub struct TeeTrustedOsImplementationVersion;

impl PropertyKey for TeeTrustedOsImplementationVersion {
    type Output = String;

    open spec fn spec_key() -> Seq<char> {
        "gpd.tee.trustedos.implementation.version"@
    }

    open spec fn spec_set() -> PropertySet {
        PropertySet::TeeImplementation
    }

    fn key(&self) -> (k: &'static str) {
        proof {
            reveal_strlit("gpd.tee.trustedos.implementation.version");
        }
        "gpd.tee.trustedos.implementation.version"
    }

    fn set(&self) -> (s: PropertySet) {
        PropertySet::TeeImplementation
    }
}

/// The property "gpd.tee.trustedos.implementation.binaryversion".
pub struct TeeTrustedOsImplementationBinaryVersion;

impl PropertyKey for TeeTrustedOsImplementationBinaryVersion {
    type Output = Vec<u8>;

    open spec fn spec_key() -> Seq<char> {
        "gpd.tee.trustedos.implementation.binaryversion"@
    }

    open spec fn spec_set() -> PropertySet {
        PropertySet::TeeImplementation
    }

    fn key(&self) -> (k: &'static str) {
        proof {
            reveal_strlit("gpd.tee.trustedos.implementation.binaryversion");
        }
        "gpd.tee.trustedos.implementation.binaryversion"
    }

    fn set(&self) -> (s: PropertySet) {
        PropertySet::TeeImplementation
    }
}

/// The property "gpd.tee.trustedos.manufacturer".
pub struct TeeTrustedOsManufacturer;

impl PropertyKey for TeeTrustedOsManufacturer {
    type Output = String;

    open spec fn spec_key() -> Seq<char> {
        "gpd.tee.trustedos.manufacturer"@
    }

    open spec fn spec_set() -> PropertySet {
        PropertySet::TeeImplementation
    }

    fn key(&self) -> (k: &'static str) {
        proof {
            reveal_strlit("gpd.tee.trustedos.manufacturer");
        }
        "gpd.tee.trustedos.manufacturer"
    }

    fn set(&self) -> (s: PropertySet) {
        PropertySet::TeeImplementation
    }
}

/// The property "gpd.tee.firmware.implementation.version".
pub struct TeeFirmwareImplementationVersion;

impl PropertyKey for TeeFirmwareImplementationVersion {
    type Output = String;

    open spec fn spec_key() -> Seq<char> {
        "gpd.tee.firmware.implementation.version"@
    }

    open spec fn spec_set() -> PropertySet {
        PropertySet::TeeImplementation
    }

    fn key(&self) -> (k: &'static str) {
        proof {
            reveal_strlit("gpd.tee.firmware.implementation.version");
        }
        "gpd.tee.firmware.implementation.version"
    }

    fn set(&self) -> (s: PropertySet) {
        PropertySet::TeeImplementation
    }
}

/// The property "gpd.tee.firmware.implementation.binaryversion".
pub struct TeeFirmwareImplementationBinaryVersion;

impl PropertyKey for TeeFirmwareImplementationBinaryVersion {
    type Output = Vec<u8>;

    open spec fn spec_key() -> Seq<char> {
        "gpd.tee.firmware.implementation.binaryversion"@
    }

    open spec fn spec_set() -> PropertySet {
        PropertySet::TeeImplementation
    }

    fn key(&self) -> (k: &'static str) {
        proof {
            reveal_strlit("gpd.tee.firmware.implementation.binaryversion");
        }
        "gpd.tee.firmware.implementation.binaryversion"
    }

    fn set(&self) -> (s: PropertySet) {
        PropertySet::TeeImplementation
    }
}

/// The property "gpd.tee.firmware.manufacturer".
pub struct TeeFirmwareManufacturer;

impl PropertyKey for TeeFirmwareManufacturer {
    type Output = String;

    open spec fn spec_key() -> Seq<char> {
        "gpd.tee.firmware.manufacturer"@
    }

    open spec fn spec_set() -> PropertySet {
        PropertySet::TeeImplementation
    }

    fn key(&self) -> (k: &'static str) {
        proof {
            reveal_strlit("gpd.tee.firmware.manufacturer");
        }
        "gpd.tee.firmware.manufacturer"
    }

    fn set(&self) -> (s: PropertySet) {
        PropertySet::TeeImplementation
    }
}

/// The property "gpd.tee.event.maxSources".
pub struct TeeEventMaxSources;

impl PropertyKey for TeeEventMaxSources {
    type Output = u32;

    open spec fn spec_key() -> Seq<char> {
        "gpd.tee.event.maxSources"@
    }

    open spec fn spec_set() -> PropertySet {
        PropertySet::TeeImplementation
    }

    fn key(&self) -> (k: &'static str) {
        proof {
            reveal_strlit("gpd.tee.event.maxSources");
        }
        "gpd.tee.event.maxSources"
    }

    fn set(&self) -> (s: PropertySet) {
        PropertySet::TeeImplementation
    }
}

/// The key of every property of the three sets.
pub open spec fn property_keys() -> Seq<Seq<char>> {
    seq![
        TaAppId::spec_key(),
        TaSingleInstance::spec_key(),
        TaMultiSession::spec_key(),
        TaInstanceKeepAlive::spec_key(),
        TaDataSize::spec_key(),
        TaStackSize::spec_key(),
        TaVersion::spec_key(),
        TaDescription::spec_key(),
        TaEndian::spec_key(),
        TaDoesNotCloseHandleOnCorruptObject::spec_key(),
        ClientIdentity::spec_key(),
        ClientEndian::spec_key(),
        TeeApiVersion::spec_key(),
        TeeInternalCoreVersion::spec_key(),
        TeeDescription::spec_key(),
        TeeDeviceId::spec_key(),
        TeeSystemTimeProtectionLevel::spec_key(),
        TeeTaPersistentTimeProtectionLevel::spec_key(),
        TeeArithMaxBigIntSize::spec_key(),
        TeeCryptographyEcc::spec_key(),
        TeeCryptographyNist::spec_key(),
        TeeCryptographyBsiR::spec_key(),
        TeeCryptographyBsiT::spec_key(),
        TeeCryptographyIetf::spec_key(),
        TeeCryptographyOcta::spec_key(),
        TeeTrustedStoragePrivateRollbackProtection::spec_key(),
        TeeTrustedStoragePersoRollbackProtection::spec_key(),
        TeeTrustedStorageProtectedRollbackProtection::spec_key(),
        TeeTrustedStorageAntiRollbackProtectionLevel::spec_key(),
        TeeTrustedStorageRollbackDetectionProtectionLevel::spec_key(),
        TeeTrustedOsImplementationVersion::spec_key(),
        TeeTrustedOsImplementationBinaryVersion::spec_key(),
        TeeTrustedOsManufacturer::spec_key(),
        TeeFirmwareImplementationVersion::spec_key(),
        TeeFirmwareImplementationBinaryVersion::spec_key(),
        TeeFirmwareManufacturer::spec_key(),
        TeeEventMaxSources::spec_key(),
    ]
}

/// The prefix of the keys of a set's properties.
pub open spec fn set_prefix(set: PropertySet) -> Seq<char> {
    match set {
        PropertySet::TeeImplementation => "gpd.tee."@,
        PropertySet::CurrentClient => "gpd.client."@,
        PropertySet::CurrentTa => "gpd.ta."@,
    }
}

/// No two properties have the same key: reading one property never reads
/// another.
pub proof fn lemma_property_keys_distinct()
    ensures
        property_keys().len() == 37,
        forall|a: int, b: int|
            0 <= a < property_keys().len() && 0 <= b < property_keys().len() && a != b
                ==> #[trigger] property_keys()[a] != #[trigger] property_keys()[b],
{
    let k = property_keys();
    reveal_strlit("gpd.ta.appID");
    reveal_strlit("gpd.ta.singleInstance");
    reveal_strlit("gpd.ta.multiSession");
    reveal_strlit("gpd.ta.instanceKeepAlive");
    reveal_strlit("gpd.ta.dataSize");
    reveal_strlit("gpd.ta.stackSize");
    reveal_strlit("gpd.ta.version");
    reveal_strlit("gpd.ta.description");
    reveal_strlit("gpd.ta.endian");
    reveal_strlit("gpd.ta.doesNotCloseHandleOnCorruptObject");
    reveal_strlit("gpd.client.identity");
    reveal_strlit("gpd.client.endian");
    reveal_strlit("gpd.tee.apiversion");
    reveal_strlit("gpd.tee.internalCore.version");
    reveal_strlit("gpd.tee.description");
    reveal_strlit("gpd.tee.deviceID");
    reveal_strlit("gpd.tee.systemTime.protectionLevel");
    reveal_strlit("gpd.tee.TAPersistentTime.protectionLevel");
    reveal_strlit("gpd.tee.arith.maxBigIntSize");
    reveal_strlit("gpd.tee.cryptography.ecc");
    reveal_strlit("gpd.tee.cryptography.nist");
    reveal_strlit("gpd.tee.cryptography.bsi-r");
    reveal_strlit("gpd.tee.cryptography.bsi-t");
    reveal_strlit("gpd.tee.cryptography.ietf");
    reveal_strlit("gpd.tee.cryptography.octa");
    reveal_strlit("gpd.tee.trustedStorage.private.rollbackProtection");
    reveal_strlit("gpd.tee.trustedStorage.perso.rollbackProtection");
    reveal_strlit("gpd.tee.trustedStorage.protected.rollbackProtection");
    reveal_strlit("gpd.tee.trustedStorage.antiRollback.protectionLevel");
    reveal_strlit("gpd.tee.trustedStorage.rollbackDetection.protectionLevel");
    reveal_strlit("gpd.tee.trustedos.implementation.version");
    reveal_strlit("gpd.tee.trustedos.implementation.binaryversion");
    reveal_strlit("gpd.tee.trustedos.manufacturer");
    reveal_strlit("gpd.tee.firmware.implementation.version");
    reveal_strlit("gpd.tee.firmware.implementation.binaryversion");
    reveal_strlit("gpd.tee.firmware.manufacturer");
    reveal_strlit("gpd.tee.event.maxSources");
    assert forall|a: int, b: int| 0 <= a < 37 && 0 <= b < 37 && a != b implies #[trigger] k[a] != #[trigger] k[b] by {
        if a == 2 && b == 10 || a == 10 && b == 2 {
            assert(k[a][4] != k[b][4]);
        } else if a == 2 && b == 14 || a == 14 && b == 2 {
            assert(k[a][5] != k[b][5]);
        } else if a == 3 && b == 19 || a == 19 && b == 3 {
            assert(k[a][5] != k[b][5]);
        } else if a == 3 && b == 36 || a == 36 && b == 3 {
            assert(k[a][5] != k[b][5]);
        } else if a == 5 && b == 15 || a == 15 && b == 5 {
            assert(k[a][5] != k[b][5]);
        } else if a == 7 && b == 12 || a == 12 && b == 7 {
            assert(k[a][5] != k[b][5]);
        } else if a == 9 && b == 17 || a == 17 && b == 9 {
            assert(k[a][5] != k[b][5]);
        } else if a == 9 && b == 30 || a == 30 && b == 9 {
            assert(k[a][5] != k[b][5]);
        } else if a == 10 && b == 14 || a == 14 && b == 10 {
            assert(k[a][4] != k[b][4]);
        } else if a == 17 && b == 30 || a == 30 && b == 17 {
            assert(k[a][8] != k[b][8]);
        } else if a == 19 && b == 36 || a == 36 && b == 19 {
            assert(k[a][8] != k[b][8]);
        } else if a == 20 && b == 23 || a == 23 && b == 20 {
            assert(k[a][21] != k[b][21]);
        } else if a == 20 && b == 24 || a == 24 && b == 20 {
            assert(k[a][21] != k[b][21]);
        } else if a == 21 && b == 22 || a == 22 && b == 21 {
            assert(k[a][25] != k[b][25]);
        } else if a == 23 && b == 24 || a == 24 && b == 23 {
            assert(k[a][21] != k[b][21]);
        } else if a == 27 && b == 28 || a == 28 && b == 27 {
            assert(k[a][23] != k[b][23]);
        } else {
            assert(k[a].len() != k[b].len());
        }
    }
}

/// Every property's key is its GlobalPlatform name, which begins with the
/// prefix of the set the property belongs to.
pub proof fn lemma_property_keys_are_gp_names()
    ensures
        TaAppId::spec_key() == "gpd.ta.appID"@,
        TaSingleInstance::spec_key() == "gpd.ta.singleInstance"@,
        TaMultiSession::spec_key() == "gpd.ta.multiSession"@,
        TaInstanceKeepAlive::spec_key() == "gpd.ta.instanceKeepAlive"@,
        TaDataSize::spec_key() == "gpd.ta.dataSize"@,
        TaStackSize::spec_key() == "gpd.ta.stackSize"@,
        TaVersion::spec_key() == "gpd.ta.version"@,
        TaDescription::spec_key() == "gpd.ta.description"@,
        TaEndian::spec_key() == "gpd.ta.endian"@,
        TaDoesNotCloseHandleOnCorruptObject::spec_key() == "gpd.ta.doesNotCloseHandleOnCorruptObject"@,
        ClientIdentity::spec_key() == "gpd.client.identity"@,
        ClientEndian::spec_key() == "gpd.client.endian"@,
        TeeApiVersion::spec_key() == "gpd.tee.apiversion"@,
        TeeInternalCoreVersion::spec_key() == "gpd.tee.internalCore.version"@,
        TeeDescription::spec_key() == "gpd.tee.description"@,
        TeeDeviceId::spec_key() == "gpd.tee.deviceID"@,
        TeeSystemTimeProtectionLevel::spec_key() == "gpd.tee.systemTime.protectionLevel"@,
        TeeTaPersistentTimeProtectionLevel::spec_key() == "gpd.tee.TAPersistentTime.protectionLevel"@,
        TeeArithMaxBigIntSize::spec_key() == "gpd.tee.arith.maxBigIntSize"@,
        TeeCryptographyEcc::spec_key() == "gpd.tee.cryptography.ecc"@,
        TeeCryptographyNist::spec_key() == "gpd.tee.cryptography.nist"@,
        TeeCryptographyBsiR::spec_key() == "gpd.tee.cryptography.bsi-r"@,
        TeeCryptographyBsiT::spec_key() == "gpd.tee.cryptography.bsi-t"@,
        TeeCryptographyIetf::spec_key() == "gpd.tee.cryptography.ietf"@,
        TeeCryptographyOcta::spec_key() == "gpd.tee.cryptography.octa"@,
        TeeTrustedStoragePrivateRollbackProtection::spec_key() == "gpd.tee.trustedStorage.private.rollbackProtection"@,
        TeeTrustedStoragePersoRollbackProtection::spec_key() == "gpd.tee.trustedStorage.perso.rollbackProtection"@,
        TeeTrustedStorageProtectedRollbackProtection::spec_key() == "gpd.tee.trustedStorage.protected.rollbackProtection"@,
        TeeTrustedStorageAntiRollbackProtectionLevel::spec_key() == "gpd.tee.trustedStorage.antiRollback.protectionLevel"@,
        TeeTrustedStorageRollbackDetectionProtectionLevel::spec_key() == "gpd.tee.trustedStorage.rollbackDetection.protectionLevel"@,
        TeeTrustedOsImplementationVersion::spec_key() == "gpd.tee.trustedos.implementation.version"@,
        TeeTrustedOsImplementationBinaryVersion::spec_key() == "gpd.tee.trustedos.implementation.binaryversion"@,
        TeeTrustedOsManufacturer::spec_key() == "gpd.tee.trustedos.manufacturer"@,
        TeeFirmwareImplementationVersion::spec_key() == "gpd.tee.firmware.implementation.version"@,
        TeeFirmwareImplementationBinaryVersion::spec_key() == "gpd.tee.firmware.implementation.binaryversion"@,
        TeeFirmwareManufacturer::spec_key() == "gpd.tee.firmware.manufacturer"@,
        TeeEventMaxSources::spec_key() == "gpd.tee.event.maxSources"@,
        TaAppId::spec_key().take(set_prefix(TaAppId::spec_set()).len() as int) == set_prefix(TaAppId::spec_set()),
        TaSingleInstance::spec_key().take(set_prefix(TaSingleInstance::spec_set()).len() as int) == set_prefix(TaSingleInstance::spec_set()),
        TaMultiSession::spec_key().take(set_prefix(TaMultiSession::spec_set()).len() as int) == set_prefix(TaMultiSession::spec_set()),
        TaInstanceKeepAlive::spec_key().take(set_prefix(TaInstanceKeepAlive::spec_set()).len() as int) == set_prefix(TaInstanceKeepAlive::spec_set()),
        TaDataSize::spec_key().take(set_prefix(TaDataSize::spec_set()).len() as int) == set_prefix(TaDataSize::spec_set()),
        TaStackSize::spec_key().take(set_prefix(TaStackSize::spec_set()).len() as int) == set_prefix(TaStackSize::spec_set()),
        TaVersion::spec_key().take(set_prefix(TaVersion::spec_set()).len() as int) == set_prefix(TaVersion::spec_set()),
        TaDescription::spec_key().take(set_prefix(TaDescription::spec_set()).len() as int) == set_prefix(TaDescription::spec_set()),
        TaEndian::spec_key().take(set_prefix(TaEndian::spec_set()).len() as int) == set_prefix(TaEndian::spec_set()),
        TaDoesNotCloseHandleOnCorruptObject::spec_key().take(set_prefix(TaDoesNotCloseHandleOnCorruptObject::spec_set()).len() as int) == set_prefix(TaDoesNotCloseHandleOnCorruptObject::spec_set()),
        ClientIdentity::spec_key().take(set_prefix(ClientIdentity::spec_set()).len() as int) == set_prefix(ClientIdentity::spec_set()),
        ClientEndian::spec_key().take(set_prefix(ClientEndian::spec_set()).len() as int) == set_prefix(ClientEndian::spec_set()),
        TeeApiVersion::spec_key().take(set_prefix(TeeApiVersion::spec_set()).len() as int) == set_prefix(TeeApiVersion::spec_set()),
        TeeInternalCoreVersion::spec_key().take(set_prefix(TeeInternalCoreVersion::spec_set()).len() as int) == set_prefix(TeeInternalCoreVersion::spec_set()),
        TeeDescription::spec_key().take(set_prefix(TeeDescription::spec_set()).len() as int) == set_prefix(TeeDescription::spec_set()),
        TeeDeviceId::spec_key().take(set_prefix(TeeDeviceId::spec_set()).len() as int) == set_prefix(TeeDeviceId::spec_set()),
        TeeSystemTimeProtectionLevel::spec_key().take(set_prefix(TeeSystemTimeProtectionLevel::spec_set()).len() as int) == set_prefix(TeeSystemTimeProtectionLevel::spec_set()),
        TeeTaPersistentTimeProtectionLevel::spec_key().take(set_prefix(TeeTaPersistentTimeProtectionLevel::spec_set()).len() as int) == set_prefix(TeeTaPersistentTimeProtectionLevel::spec_set()),
        TeeArithMaxBigIntSize::spec_key().take(set_prefix(TeeArithMaxBigIntSize::spec_set()).len() as int) == set_prefix(TeeArithMaxBigIntSize::spec_set()),
        TeeCryptographyEcc::spec_key().take(set_prefix(TeeCryptographyEcc::spec_set()).len() as int) == set_prefix(TeeCryptographyEcc::spec_set()),
        TeeCryptographyNist::spec_key().take(set_prefix(TeeCryptographyNist::spec_set()).len() as int) == set_prefix(TeeCryptographyNist::spec_set()),
        TeeCryptographyBsiR::spec_key().take(set_prefix(TeeCryptographyBsiR::spec_set()).len() as int) == set_prefix(TeeCryptographyBsiR::spec_set()),
        TeeCryptographyBsiT::spec_key().take(set_prefix(TeeCryptographyBsiT::spec_set()).len() as int) == set_prefix(TeeCryptographyBsiT::spec_set()),
        TeeCryptographyIetf::spec_key().take(set_prefix(TeeCryptographyIetf::spec_set()).len() as int) == set_prefix(TeeCryptographyIetf::spec_set()),
        TeeCryptographyOcta::spec_key().take(set_prefix(TeeCryptographyOcta::spec_set()).len() as int) == set_prefix(TeeCryptographyOcta::spec_set()),
        TeeTrustedStoragePrivateRollbackProtection::spec_key().take(set_prefix(TeeTrustedStoragePrivateRollbackProtection::spec_set()).len() as int) == set_prefix(TeeTrustedStoragePrivateRollbackProtection::spec_set()),
        TeeTrustedStoragePersoRollbackProtection::spec_key().take(set_prefix(TeeTrustedStoragePersoRollbackProtection::spec_set()).len() as int) == set_prefix(TeeTrustedStoragePersoRollbackProtection::spec_set()),
        TeeTrustedStorageProtectedRollbackProtection::spec_key().take(set_prefix(TeeTrustedStorageProtectedRollbackProtection::spec_set()).len() as int) == set_prefix(TeeTrustedStorageProtectedRollbackProtection::spec_set()),
        TeeTrustedStorageAntiRollbackProtectionLevel::spec_key().take(set_prefix(TeeTrustedStorageAntiRollbackProtectionLevel::spec_set()).len() as int) == set_prefix(TeeTrustedStorageAntiRollbackProtectionLevel::spec_set()),
        TeeTrustedStorageRollbackDetectionProtectionLevel::spec_key().take(set_prefix(TeeTrustedStorageRollbackDetectionProtectionLevel::spec_set()).len() as int) == set_prefix(TeeTrustedStorageRollbackDetectionProtectionLevel::spec_set()),
        TeeTrustedOsImplementationVersion::spec_key().take(set_prefix(TeeTrustedOsImplementationVersion::spec_set()).len() as int) == set_prefix(TeeTrustedOsImplementationVersion::spec_set()),
        TeeTrustedOsImplementationBinaryVersion::spec_key().take(set_prefix(TeeTrustedOsImplementationBinaryVersion::spec_set()).len() as int) == set_prefix(TeeTrustedOsImplementationBinaryVersion::spec_set()),
        TeeTrustedOsManufacturer::spec_key().take(set_prefix(TeeTrustedOsManufacturer::spec_set()).len() as int) == set_prefix(TeeTrustedOsManufacturer::spec_set()),
        TeeFirmwareImplementationVersion::spec_key().take(set_prefix(TeeFirmwareImplementationVersion::spec_set()).len() as int) == set_prefix(TeeFirmwareImplementationVersion::spec_set()),
        TeeFirmwareImplementationBinaryVersion::spec_key().take(set_prefix(TeeFirmwareImplementationBinaryVersion::spec_set()).len() as int) == set_prefix(TeeFirmwareImplementationBinaryVersion::spec_set()),
        TeeFirmwareManufacturer::spec_key().take(set_prefix(TeeFirmwareManufacturer::spec_set()).len() as int) == set_prefix(TeeFirmwareManufacturer::spec_set()),
        TeeEventMaxSources::spec_key().take(set_prefix(TeeEventMaxSources::spec_set()).len() as int) == set_prefix(TeeEventMaxSources::spec_set()),
{
    reveal_strlit("gpd.tee.");
    reveal_strlit("gpd.client.");
    reveal_strlit("gpd.ta.");
    reveal_strlit("gpd.ta.appID");
    reveal_strlit("gpd.ta.singleInstance");
    reveal_strlit("gpd.ta.multiSession");
    reveal_strlit("gpd.ta.instanceKeepAlive");
    reveal_strlit("gpd.ta.dataSize");
    reveal_strlit("gpd.ta.stackSize");
    reveal_strlit("gpd.ta.version");
    reveal_strlit("gpd.ta.description");
    reveal_strlit("gpd.ta.endian");
    reveal_strlit("gpd.ta.doesNotCloseHandleOnCorruptObject");
    reveal_strlit("gpd.client.identity");
    reveal_strlit("gpd.client.endian");
    reveal_strlit("gpd.tee.apiversion");
    reveal_strlit("gpd.tee.internalCore.version");
    reveal_strlit("gpd.tee.description");
    reveal_strlit("gpd.tee.deviceID");
    reveal_strlit("gpd.tee.systemTime.protectionLevel");
    reveal_strlit("gpd.tee.TAPersistentTime.protectionLevel");
    reveal_strlit("gpd.tee.arith.maxBigIntSize");
    reveal_strlit("gpd.tee.cryptography.ecc");
    reveal_strlit("gpd.tee.cryptography.nist");
    reveal_strlit("gpd.tee.cryptography.bsi-r");
    reveal_strlit("gpd.tee.cryptography.bsi-t");
    reveal_strlit("gpd.tee.cryptography.ietf");
    reveal_strlit("gpd.tee.cryptography.octa");
    reveal_strlit("gpd.tee.trustedStorage.private.rollbackProtection");
    reveal_strlit("gpd.tee.trustedStorage.perso.rollbackProtection");
    reveal_strlit("gpd.tee.trustedStorage.protected.rollbackProtection");
    reveal_strlit("gpd.tee.trustedStorage.antiRollback.protectionLevel");
    reveal_strlit("gpd.tee.trustedStorage.rollbackDetection.protectionLevel");
    reveal_strlit("gpd.tee.trustedos.implementation.version");
    reveal_strlit("gpd.tee.trustedos.implementation.binaryversion");
    reveal_strlit("gpd.tee.trustedos.manufacturer");
    reveal_strlit("gpd.tee.firmware.implementation.version");
    reveal_strlit("gpd.tee.firmware.implementation.binaryversion");
    reveal_strlit("gpd.tee.firmware.manufacturer");
    reveal_strlit("gpd.tee.event.maxSources");
    assert(TaAppId::spec_key().take(set_prefix(TaAppId::spec_set()).len() as int) =~= set_prefix(TaAppId::spec_set()));
    assert(TaSingleInstance::spec_key().take(set_prefix(TaSingleInstance::spec_set()).len() as int) =~= set_prefix(TaSingleInstance::spec_set()));
    assert(TaMultiSession::spec_key().take(set_prefix(TaMultiSession::spec_set()).len() as int) =~= set_prefix(TaMultiSession::spec_set()));
    assert(TaInstanceKeepAlive::spec_key().take(set_prefix(TaInstanceKeepAlive::spec_set()).len() as int) =~= set_prefix(TaInstanceKeepAlive::spec_set()));
    assert(TaDataSize::spec_key().take(set_prefix(TaDataSize::spec_set()).len() as int) =~= set_prefix(TaDataSize::spec_set()));
    assert(TaStackSize::spec_key().take(set_prefix(TaStackSize::spec_set()).len() as int) =~= set_prefix(TaStackSize::spec_set()));
    assert(TaVersion::spec_key().take(set_prefix(TaVersion::spec_set()).len() as int) =~= set_prefix(TaVersion::spec_set()));
    assert(TaDescription::spec_key().take(set_prefix(TaDescription::spec_set()).len() as int) =~= set_prefix(TaDescription::spec_set()));
    assert(TaEndian::spec_key().take(set_prefix(TaEndian::spec_set()).len() as int) =~= set_prefix(TaEndian::spec_set()));
    assert(TaDoesNotCloseHandleOnCorruptObject::spec_key().take(set_prefix(TaDoesNotCloseHandleOnCorruptObject::spec_set()).len() as int) =~= set_prefix(TaDoesNotCloseHandleOnCorruptObject::spec_set()));
    assert(ClientIdentity::spec_key().take(set_prefix(ClientIdentity::spec_set()).len() as int) =~= set_prefix(ClientIdentity::spec_set()));
    assert(ClientEndian::spec_key().take(set_prefix(ClientEndian::spec_set()).len() as int) =~= set_prefix(ClientEndian::spec_set()));
    assert(TeeApiVersion::spec_key().take(set_prefix(TeeApiVersion::spec_set()).len() as int) =~= set_prefix(TeeApiVersion::spec_set()));
    assert(TeeInternalCoreVersion::spec_key().take(set_prefix(TeeInternalCoreVersion::spec_set()).len() as int) =~= set_prefix(TeeInternalCoreVersion::spec_set()));
    assert(TeeDescription::spec_key().take(set_prefix(TeeDescription::spec_set()).len() as int) =~= set_prefix(TeeDescription::spec_set()));
    assert(TeeDeviceId::spec_key().take(set_prefix(TeeDeviceId::spec_set()).len() as int) =~= set_prefix(TeeDeviceId::spec_set()));
    assert(TeeSystemTimeProtectionLevel::spec_key().take(set_prefix(TeeSystemTimeProtectionLevel::spec_set()).len() as int) =~= set_prefix(TeeSystemTimeProtectionLevel::spec_set()));
    assert(TeeTaPersistentTimeProtectionLevel::spec_key().take(set_prefix(TeeTaPersistentTimeProtectionLevel::spec_set()).len() as int) =~= set_prefix(TeeTaPersistentTimeProtectionLevel::spec_set()));
    assert(TeeArithMaxBigIntSize::spec_key().take(set_prefix(TeeArithMaxBigIntSize::spec_set()).len() as int) =~= set_prefix(TeeArithMaxBigIntSize::spec_set()));
    assert(TeeCryptographyEcc::spec_key().take(set_prefix(TeeCryptographyEcc::spec_set()).len() as int) =~= set_prefix(TeeCryptographyEcc::spec_set()));
    assert(TeeCryptographyNist::spec_key().take(set_prefix(TeeCryptographyNist::spec_set()).len() as int) =~= set_prefix(TeeCryptographyNist::spec_set()));
    assert(TeeCryptographyBsiR::spec_key().take(set_prefix(TeeCryptographyBsiR::spec_set()).len() as int) =~= set_prefix(TeeCryptographyBsiR::spec_set()));
    assert(TeeCryptographyBsiT::spec_key().take(set_prefix(TeeCryptographyBsiT::spec_set()).len() as int) =~= set_prefix(TeeCryptographyBsiT::spec_set()));
    assert(TeeCryptographyIetf::spec_key().take(set_prefix(TeeCryptographyIetf::spec_set()).len() as int) =~= set_prefix(TeeCryptographyIetf::spec_set()));
    assert(TeeCryptographyOcta::spec_key().take(set_prefix(TeeCryptographyOcta::spec_set()).len() as int) =~= set_prefix(TeeCryptographyOcta::spec_set()));
    assert(TeeTrustedStoragePrivateRollbackProtection::spec_key().take(set_prefix(TeeTrustedStoragePrivateRollbackProtection::spec_set()).len() as int) =~= set_prefix(TeeTrustedStoragePrivateRollbackProtection::spec_set()));
    assert(TeeTrustedStoragePersoRollbackProtection::spec_key().take(set_prefix(TeeTrustedStoragePersoRollbackProtection::spec_set()).len() as int) =~= set_prefix(TeeTrustedStoragePersoRollbackProtection::spec_set()));
    assert(TeeTrustedStorageProtectedRollbackProtection::spec_key().take(set_prefix(TeeTrustedStorageProtectedRollbackProtection::spec_set()).len() as int) =~= set_prefix(TeeTrustedStorageProtectedRollbackProtection::spec_set()));
    assert(TeeTrustedStorageAntiRollbackProtectionLevel::spec_key().take(set_prefix(TeeTrustedStorageAntiRollbackProtectionLevel::spec_set()).len() as int) =~= set_prefix(TeeTrustedStorageAntiRollbackProtectionLevel::spec_set()));
    assert(TeeTrustedStorageRollbackDetectionProtectionLevel::spec_key().take(set_prefix(TeeTrustedStorageRollbackDetectionProtectionLevel::spec_set()).len() as int) =~= set_prefix(TeeTrustedStorageRollbackDetectionProtectionLevel::spec_set()));
    assert(TeeTrustedOsImplementationVersion::spec_key().take(set_prefix(TeeTrustedOsImplementationVersion::spec_set()).len() as int) =~= set_prefix(TeeTrustedOsImplementationVersion::spec_set()));
    assert(TeeTrustedOsImplementationBinaryVersion::spec_key().take(set_prefix(TeeTrustedOsImplementationBinaryVersion::spec_set()).len() as int) =~= set_prefix(TeeTrustedOsImplementationBinaryVersion::spec_set()));
    assert(TeeTrustedOsManufacturer::spec_key().take(set_prefix(TeeTrustedOsManufacturer::spec_set()).len() as int) =~= set_prefix(TeeTrustedOsManufacturer::spec_set()));
    assert(TeeFirmwareImplementationVersion::spec_key().take(set_prefix(TeeFirmwareImplementationVersion::spec_set()).len() as int) =~= set_prefix(TeeFirmwareImplementationVersion::spec_set()));
    assert(TeeFirmwareImplementationBinaryVersion::spec_key().take(set_prefix(TeeFirmwareImplementationBinaryVersion::spec_set()).len() as int) =~= set_prefix(TeeFirmwareImplementationBinaryVersion::spec_set()));
    assert(TeeFirmwareManufacturer::spec_key().take(set_prefix(TeeFirmwareManufacturer::spec_set()).len() as int) =~= set_prefix(TeeFirmwareManufacturer::spec_set()));
    assert(TeeEventMaxSources::spec_key().take(set_prefix(TeeEventMaxSources::spec_set()).len() as int) =~= set_prefix(TeeEventMaxSources::spec_set()));
}

} // verus!
