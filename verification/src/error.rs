//! Errors of TEE operations: a kind for each status code of the TEE
//! Internal Core API, and where the error came from.

use vstd::prelude::*;
use crate::text::{hex_padded, push_hex_padded, push_str};
use crate::defines::{TEE_ERROR_ACCESS_CONFLICT, TEE_ERROR_ACCESS_DENIED, TEE_ERROR_BAD_FORMAT, TEE_ERROR_BAD_PARAMETERS, TEE_ERROR_BAD_STATE, TEE_ERROR_BUSY, TEE_ERROR_CANCEL, TEE_ERROR_COMMUNICATION, TEE_ERROR_CORRUPT_OBJECT, TEE_ERROR_CORRUPT_OBJECT_2, TEE_ERROR_EXCESS_DATA, TEE_ERROR_EXTERNAL_CANCEL, TEE_ERROR_GENERIC, TEE_ERROR_ITEM_NOT_FOUND, TEE_ERROR_MAC_INVALID, TEE_ERROR_NOT_IMPLEMENTED, TEE_ERROR_NOT_SUPPORTED, TEE_ERROR_NO_DATA, TEE_ERROR_OUT_OF_MEMORY, TEE_ERROR_OVERFLOW, TEE_ERROR_SECURITY, TEE_ERROR_SHORT_BUFFER, TEE_ERROR_SIGNATURE_INVALID, TEE_ERROR_STORAGE_NOT_AVAILABLE, TEE_ERROR_STORAGE_NOT_AVAILABLE_2, TEE_ERROR_STORAGE_NO_SPACE, TEE_ERROR_TARGET_DEAD, TEE_ERROR_TIME_NEEDS_RESET, TEE_ERROR_TIME_NOT_SET, TEE_ORIGIN_API, TEE_ORIGIN_COMMS, TEE_ORIGIN_TEE, TEE_ORIGIN_TRUSTED_APP, TEE_SUCCESS};

verus! {

/// The result of a TEE operation.
pub type Result<T> = core::result::Result<T, Error>;

/// General categories of TEE errors, each with its status code in OP-TEE OS.
#[derive(Clone, Copy, Debug, PartialEq, Eq, Structural, Hash)]
pub enum ErrorKind {
    /// Object corruption.
    CorruptObject,
    /// Persistent object corruption.
    CorruptObject2,
    /// Object storage is not available.
    StorageNotAvailable,
    /// Persistent object storage is not available.
    StorageNotAvailable2,
    /// Non-specific cause.
    Generic,
    /// Access privileges are not sufficient.
    AccessDenied,
    /// The operation was canceled.
    Cancel,
    /// Concurrent accesses caused conflict.
    AccessConflict,
    /// Too much data for the requested operation was passed.
    ExcessData,
    /// Input data was of invalid format.
    BadFormat,
    /// Input parameters were invalid.
    BadParameters,
    /// Operation is not valid in the current state.
    BadState,
    /// The requested data item is not found.
    ItemNotFound,
    /// The requested operation should exist but is not yet implemented.
    NotImplemented,
    /// The requested operation is valid but is not supported in this implementation.
    NotSupported,
    /// Expected data was missing.
    NoData,
    /// System ran out of resources.
    OutOfMemory,
    /// The system is busy working on something else.
    Busy,
    /// Communication with a remote party failed.
    Communication,
    /// A security fault was detected.
    Security,
    /// The supplied buffer is too short for the generated output.
    ShortBuffer,
    /// The operation has been cancelled by an external event which occurred in
    /// the REE while the function was in progress.
    ExternalCancel,
    /// Data overflow.
    Overflow,
    /// Trusted Application has panicked during the operation.
    TargetDead,
    /// Insufficient space is available.
    StorageNoSpace,
    /// MAC is invalid.
    MacInvalid,
    /// Signature is invalid.
    SignatureInvalid,
    /// The persistent time has not been set.
    TimeNotSet,
    /// The persistent time has been set but may have been corrupted and SHALL no longer be trusted.
    TimeNeedsReset,
    /// Unknown error.
    Unknown,
}

/// The status code of the kind that has one; `Unknown` comes right after
/// the last of them.
pub open spec fn kind_code(kind: ErrorKind) -> u32 {
    match kind {
        ErrorKind::CorruptObject => TEE_ERROR_CORRUPT_OBJECT,
        ErrorKind::CorruptObject2 => TEE_ERROR_CORRUPT_OBJECT_2,
        ErrorKind::StorageNotAvailable => TEE_ERROR_STORAGE_NOT_AVAILABLE,
        ErrorKind::StorageNotAvailable2 => TEE_ERROR_STORAGE_NOT_AVAILABLE_2,
        ErrorKind::Generic => TEE_ERROR_GENERIC,
        ErrorKind::AccessDenied => TEE_ERROR_ACCESS_DENIED,
        ErrorKind::Cancel => TEE_ERROR_CANCEL,
        ErrorKind::AccessConflict => TEE_ERROR_ACCESS_CONFLICT,
        ErrorKind::ExcessData => TEE_ERROR_EXCESS_DATA,
        ErrorKind::BadFormat => TEE_ERROR_BAD_FORMAT,
        ErrorKind::BadParameters => TEE_ERROR_BAD_PARAMETERS,
        ErrorKind::BadState => TEE_ERROR_BAD_STATE,
        ErrorKind::ItemNotFound => TEE_ERROR_ITEM_NOT_FOUND,
        ErrorKind::NotImplemented => TEE_ERROR_NOT_IMPLEMENTED,
        ErrorKind::NotSupported => TEE_ERROR_NOT_SUPPORTED,
        ErrorKind::NoData => TEE_ERROR_NO_DATA,
        ErrorKind::OutOfMemory => TEE_ERROR_OUT_OF_MEMORY,
        ErrorKind::Busy => TEE_ERROR_BUSY,
        ErrorKind::Communication => TEE_ERROR_COMMUNICATION,
        ErrorKind::Security => TEE_ERROR_SECURITY,
        ErrorKind::ShortBuffer => TEE_ERROR_SHORT_BUFFER,
        ErrorKind::ExternalCancel => TEE_ERROR_EXTERNAL_CANCEL,
        ErrorKind::Overflow => TEE_ERROR_OVERFLOW,
        ErrorKind::TargetDead => TEE_ERROR_TARGET_DEAD,
        ErrorKind::StorageNoSpace => TEE_ERROR_STORAGE_NO_SPACE,
        ErrorKind::MacInvalid => TEE_ERROR_MAC_INVALID,
        ErrorKind::SignatureInvalid => TEE_ERROR_SIGNATURE_INVALID,
        ErrorKind::TimeNotSet => TEE_ERROR_TIME_NOT_SET,
        ErrorKind::TimeNeedsReset => TEE_ERROR_TIME_NEEDS_RESET,
        ErrorKind::Unknown => 0xFFFF_5002,
    }
}

/// The kind of a status code: the kind whose code it is, else `Unknown`.
pub open spec fn kind_from_code(code: u32) -> ErrorKind {
    if code == TEE_ERROR_CORRUPT_OBJECT {
        ErrorKind::CorruptObject
    } else if code == TEE_ERROR_CORRUPT_OBJECT_2 {
        ErrorKind::CorruptObject2
    } else if code == TEE_ERROR_STORAGE_NOT_AVAILABLE {
        ErrorKind::StorageNotAvailable
    } else if code == TEE_ERROR_STORAGE_NOT_AVAILABLE_2 {
        ErrorKind::StorageNotAvailable2
    } else if code == TEE_ERROR_GENERIC {
        ErrorKind::Generic
    } else if code == TEE_ERROR_ACCESS_DENIED {
        ErrorKind::AccessDenied
    } else if code == TEE_ERROR_CANCEL {
        ErrorKind::Cancel
    } else if code == TEE_ERROR_ACCESS_CONFLICT {
        ErrorKind::AccessConflict
    } else if code == TEE_ERROR_EXCESS_DATA {
        ErrorKind::ExcessData
    } else if code == TEE_ERROR_BAD_FORMAT {
        ErrorKind::BadFormat
    } else if code == TEE_ERROR_BAD_PARAMETERS {
        ErrorKind::BadParameters
    } else if code == TEE_ERROR_BAD_STATE {
        ErrorKind::BadState
    } else if code == TEE_ERROR_ITEM_NOT_FOUND {
        ErrorKind::ItemNotFound
    } else if code == TEE_ERROR_NOT_IMPLEMENTED {
        ErrorKind::NotImplemented
    } else if code == TEE_ERROR_NOT_SUPPORTED {
        ErrorKind::NotSupported
    } else if code == TEE_ERROR_NO_DATA {
        ErrorKind::NoData
    } else if code == TEE_ERROR_OUT_OF_MEMORY {
        ErrorKind::OutOfMemory
    } else if code == TEE_ERROR_BUSY {
        ErrorKind::Busy
    } else if code == TEE_ERROR_COMMUNICATION {
        ErrorKind::Communication
    } else if code == TEE_ERROR_SECURITY {
        ErrorKind::Security
    } else if code == TEE_ERROR_SHORT_BUFFER {
        ErrorKind::ShortBuffer
    } else if code == TEE_ERROR_EXTERNAL_CANCEL {
        ErrorKind::ExternalCancel
    } else if code == TEE_ERROR_OVERFLOW {
        ErrorKind::Overflow
    } else if code == TEE_ERROR_TARGET_DEAD {
        ErrorKind::TargetDead
    } else if code == TEE_ERROR_STORAGE_NO_SPACE {
        ErrorKind::StorageNoSpace
    } else if code == TEE_ERROR_MAC_INVALID {
        ErrorKind::MacInvalid
    } else if code == TEE_ERROR_SIGNATURE_INVALID {
        ErrorKind::SignatureInvalid
    } else if code == TEE_ERROR_TIME_NOT_SET {
        ErrorKind::TimeNotSet
    } else if code == TEE_ERROR_TIME_NEEDS_RESET {
        ErrorKind::TimeNeedsReset
    } else {
        ErrorKind::Unknown
    }
}

/// The message that describes a kind.
pub open spec fn kind_message(kind: ErrorKind) -> Seq<char> {
    match kind {
        ErrorKind::CorruptObject => "Object corruption."@,
        ErrorKind::CorruptObject2 => "Persistent object corruption."@,
        ErrorKind::StorageNotAvailable => "Object storage is not available."@,
        ErrorKind::StorageNotAvailable2 => "Persistent object storage is not available."@,
        ErrorKind::Generic => "Non-specific cause."@,
        ErrorKind::AccessDenied => "Access privileges are not sufficient."@,
        ErrorKind::Cancel => "The operation was canceled."@,
        ErrorKind::AccessConflict => "Concurrent accesses caused conflict."@,
        ErrorKind::ExcessData => "Too much data for the requested operation was passed."@,
        ErrorKind::BadFormat => "Input data was of invalid format."@,
        ErrorKind::BadParameters => "Input parameters were invalid."@,
        ErrorKind::BadState => "Operation is not valid in the current state."@,
        ErrorKind::ItemNotFound => "The requested data item is not found."@,
        ErrorKind::NotImplemented => "The requested operation should exist but is not yet implemented."@,
        ErrorKind::NotSupported => "The requested operation is valid but is not supported in this implementation."@,
        ErrorKind::NoData => "Expected data was missing."@,
        ErrorKind::OutOfMemory => "System ran out of resources."@,
        ErrorKind::Busy => "The system is busy working on something else."@,
        ErrorKind::Communication => "Communication with a remote party failed."@,
        ErrorKind::Security => "A security fault was detected."@,
        ErrorKind::ShortBuffer => "The supplied buffer is too short for the generated output."@,
        ErrorKind::ExternalCancel => "The operation has been cancelled by an external event which occurred in the REE while the function was in progress."@,
        ErrorKind::Overflow => "Data overflow."@,
        ErrorKind::TargetDead => "Trusted Application has panicked during the operation."@,
        ErrorKind::StorageNoSpace => "Insufficient space is available."@,
        ErrorKind::MacInvalid => "MAC is invalid."@,
        ErrorKind::SignatureInvalid => "Signature is invalid."@,
        ErrorKind::TimeNotSet => "The persistent time has not been set."@,
        ErrorKind::TimeNeedsReset => "The persistent time has been set but may have been corrupted and SHALL no longer be trusted."@,
        ErrorKind::Unknown => "Unknown error."@,
    }
}

impl ErrorKind {
    /// The status code of this kind.
    pub fn code(&self) -> (code: u32)
        ensures
            code == kind_code(*self),
    {
        match *self {
            ErrorKind::CorruptObject => TEE_ERROR_CORRUPT_OBJECT,
            ErrorKind::CorruptObject2 => TEE_ERROR_CORRUPT_OBJECT_2,
            ErrorKind::StorageNotAvailable => TEE_ERROR_STORAGE_NOT_AVAILABLE,
            ErrorKind::StorageNotAvailable2 => TEE_ERROR_STORAGE_NOT_AVAILABLE_2,
            ErrorKind::Generic => TEE_ERROR_GENERIC,
            ErrorKind::AccessDenied => TEE_ERROR_ACCESS_DENIED,
            ErrorKind::Cancel => TEE_ERROR_CANCEL,
            ErrorKind::AccessConflict => TEE_ERROR_ACCESS_CONFLICT,
            ErrorKind::ExcessData => TEE_ERROR_EXCESS_DATA,
            ErrorKind::BadFormat => TEE_ERROR_BAD_FORMAT,
            ErrorKind::BadParameters => TEE_ERROR_BAD_PARAMETERS,
            ErrorKind::BadState => TEE_ERROR_BAD_STATE,
            ErrorKind::ItemNotFound => TEE_ERROR_ITEM_NOT_FOUND,
            ErrorKind::NotImplemented => TEE_ERROR_NOT_IMPLEMENTED,
            ErrorKind::NotSupported => TEE_ERROR_NOT_SUPPORTED,
            ErrorKind::NoData => TEE_ERROR_NO_DATA,
            ErrorKind::OutOfMemory => TEE_ERROR_OUT_OF_MEMORY,
            ErrorKind::Busy => TEE_ERROR_BUSY,
            ErrorKind::Communication => TEE_ERROR_COMMUNICATION,
            ErrorKind::Security => TEE_ERROR_SECURITY,
            ErrorKind::ShortBuffer => TEE_ERROR_SHORT_BUFFER,
            ErrorKind::ExternalCancel => TEE_ERROR_EXTERNAL_CANCEL,
            ErrorKind::Overflow => TEE_ERROR_OVERFLOW,
            ErrorKind::TargetDead => TEE_ERROR_TARGET_DEAD,
            ErrorKind::StorageNoSpace => TEE_ERROR_STORAGE_NO_SPACE,
            ErrorKind::MacInvalid => TEE_ERROR_MAC_INVALID,
            ErrorKind::SignatureInvalid => TEE_ERROR_SIGNATURE_INVALID,
            ErrorKind::TimeNotSet => TEE_ERROR_TIME_NOT_SET,
            ErrorKind::TimeNeedsReset => TEE_ERROR_TIME_NEEDS_RESET,
            ErrorKind::Unknown => 0xFFFF_5002,
        }
    }

    /// The kind of a status code; codes that are no error code give `Unknown`.
    pub fn from_code(code: u32) -> (kind: ErrorKind)
        ensures
            kind == kind_from_code(code),
    {
        if code == TEE_ERROR_CORRUPT_OBJECT {
            ErrorKind::CorruptObject
        } else if code == TEE_ERROR_CORRUPT_OBJECT_2 {
            ErrorKind::CorruptObject2
        } else if code == TEE_ERROR_STORAGE_NOT_AVAILABLE {
            ErrorKind::StorageNotAvailable
        } else if code == TEE_ERROR_STORAGE_NOT_AVAILABLE_2 {
            ErrorKind::StorageNotAvailable2
        } else if code == TEE_ERROR_GENERIC {
            ErrorKind::Generic
        } else if code == TEE_ERROR_ACCESS_DENIED {
            ErrorKind::AccessDenied
        } else if code == TEE_ERROR_CANCEL {
            ErrorKind::Cancel
        } else if code == TEE_ERROR_ACCESS_CONFLICT {
            ErrorKind::AccessConflict
        } else if code == TEE_ERROR_EXCESS_DATA {
            ErrorKind::ExcessData
        } else if code == TEE_ERROR_BAD_FORMAT {
            ErrorKind::BadFormat
        } else if code == TEE_ERROR_BAD_PARAMETERS {
            ErrorKind::BadParameters
        } else if code == TEE_ERROR_BAD_STATE {
            ErrorKind::BadState
        } else if code == TEE_ERROR_ITEM_NOT_FOUND {
            ErrorKind::ItemNotFound
        } else if code == TEE_ERROR_NOT_IMPLEMENTED {
            ErrorKind::NotImplemented
        } else if code == TEE_ERROR_NOT_SUPPORTED {
            ErrorKind::NotSupported
        } else if code == TEE_ERROR_NO_DATA {
            ErrorKind::NoData
        } else if code == TEE_ERROR_OUT_OF_MEMORY {
            ErrorKind::OutOfMemory
        } else if code == TEE_ERROR_BUSY {
            ErrorKind::Busy
        } else if code == TEE_ERROR_COMMUNICATION {
            ErrorKind::Communication
        } else if code == TEE_ERROR_SECURITY {
            ErrorKind::Security
        } else if code == TEE_ERROR_SHORT_BUFFER {
            ErrorKind::ShortBuffer
        } else if code == TEE_ERROR_EXTERNAL_CANCEL {
            ErrorKind::ExternalCancel
        } else if code == TEE_ERROR_OVERFLOW {
            ErrorKind::Overflow
        } else if code == TEE_ERROR_TARGET_DEAD {
            ErrorKind::TargetDead
        } else if code == TEE_ERROR_STORAGE_NO_SPACE {
            ErrorKind::StorageNoSpace
        } else if code == TEE_ERROR_MAC_INVALID {
            ErrorKind::MacInvalid
        } else if code == TEE_ERROR_SIGNATURE_INVALID {
            ErrorKind::SignatureInvalid
        } else if code == TEE_ERROR_TIME_NOT_SET {
            ErrorKind::TimeNotSet
        } else if code == TEE_ERROR_TIME_NEEDS_RESET {
            ErrorKind::TimeNeedsReset
        } else {
            ErrorKind::Unknown
        }
    }

    /// The message that describes this kind.
    pub fn as_str(&self) -> (s: &'static str)
        ensures
            s@ == kind_message(*self),
    {
        match *self {
            ErrorKind::CorruptObject => "Object corruption.",
            ErrorKind::CorruptObject2 => "Persistent object corruption.",
            ErrorKind::StorageNotAvailable => "Object storage is not available.",
            ErrorKind::StorageNotAvailable2 => "Persistent object storage is not available.",
            ErrorKind::Generic => "Non-specific cause.",
            ErrorKind::AccessDenied => "Access privileges are not sufficient.",
            ErrorKind::Cancel => "The operation was canceled.",
            ErrorKind::AccessConflict => "Concurrent accesses caused conflict.",
            ErrorKind::ExcessData => "Too much data for the requested operation was passed.",
            ErrorKind::BadFormat => "Input data was of invalid format.",
            ErrorKind::BadParameters => "Input parameters were invalid.",
            ErrorKind::BadState => "Operation is not valid in the current state.",
            ErrorKind::ItemNotFound => "The requested data item is not found.",
            ErrorKind::NotImplemented => "The requested operation should exist but is not yet implemented.",
            ErrorKind::NotSupported => "The requested operation is valid but is not supported in this implementation.",
            ErrorKind::NoData => "Expected data was missing.",
            ErrorKind::OutOfMemory => "System ran out of resources.",
            ErrorKind::Busy => "The system is busy working on something else.",
            ErrorKind::Communication => "Communication with a remote party failed.",
            ErrorKind::Security => "A security fault was detected.",
            ErrorKind::ShortBuffer => "The supplied buffer is too short for the generated output.",
            ErrorKind::ExternalCancel => "The operation has been cancelled by an external event which occurred in the REE while the function was in progress.",
            ErrorKind::Overflow => "Data overflow.",
            ErrorKind::TargetDead => "Trusted Application has panicked during the operation.",
            ErrorKind::StorageNoSpace => "Insufficient space is available.",
            ErrorKind::MacInvalid => "MAC is invalid.",
            ErrorKind::SignatureInvalid => "Signature is invalid.",
            ErrorKind::TimeNotSet => "The persistent time has not been set.",
            ErrorKind::TimeNeedsReset => "The persistent time has been set but may have been corrupted and SHALL no longer be trusted.",
            ErrorKind::Unknown => "Unknown error.",
        }
    }
}

impl Default for ErrorKind {
    fn default() -> (kind: ErrorKind)
        ensures
            kind == ErrorKind::Unknown,
    {
        ErrorKind::Unknown
    }
}

/// Where an error came from.
#[derive(Clone, Copy, Debug, PartialEq, Eq, Structural)]
pub enum ErrorOrigin {
    API,
    COMMS,
    TEE,
    TA,
    UNKNOWN,
}

/// The code of an origin; `UNKNOWN` comes right after the last of them.
pub open spec fn origin_code(origin: ErrorOrigin) -> u32 {
    match origin {
        ErrorOrigin::API => TEE_ORIGIN_API,
        ErrorOrigin::COMMS => TEE_ORIGIN_COMMS,
        ErrorOrigin::TEE => TEE_ORIGIN_TEE,
        ErrorOrigin::TA => TEE_ORIGIN_TRUSTED_APP,
        ErrorOrigin::UNKNOWN => 5,
    }
}

/// The origin of a code: the origin whose code it is, else `UNKNOWN`.
pub open spec fn origin_from_code(code: u32) -> ErrorOrigin {
    if code == TEE_ORIGIN_API {
        ErrorOrigin::API
    } else if code == TEE_ORIGIN_COMMS {
        ErrorOrigin::COMMS
    } else if code == TEE_ORIGIN_TEE {
        ErrorOrigin::TEE
    } else if code == TEE_ORIGIN_TRUSTED_APP {
        ErrorOrigin::TA
    } else {
        ErrorOrigin::UNKNOWN
    }
}

impl ErrorOrigin {
    /// The code of this origin.
    pub fn code(&self) -> (code: u32)
        ensures
            code == origin_code(*self),
    {
        match *self {
            ErrorOrigin::API => TEE_ORIGIN_API,
            ErrorOrigin::COMMS => TEE_ORIGIN_COMMS,
            ErrorOrigin::TEE => TEE_ORIGIN_TEE,
            ErrorOrigin::TA => TEE_ORIGIN_TRUSTED_APP,
            ErrorOrigin::UNKNOWN => 5,
        }
    }

    /// The origin of a code; other codes give `UNKNOWN`.
    pub fn from_code(code: u32) -> (origin: ErrorOrigin)
        ensures
            origin == origin_from_code(code),
    {
        if code == TEE_ORIGIN_API {
            ErrorOrigin::API
        } else if code == TEE_ORIGIN_COMMS {
            ErrorOrigin::COMMS
        } else if code == TEE_ORIGIN_TEE {
            ErrorOrigin::TEE
        } else if code == TEE_ORIGIN_TRUSTED_APP {
            ErrorOrigin::TA
        } else {
            ErrorOrigin::UNKNOWN
        }
    }
}

impl Default for ErrorOrigin {
    fn default() -> (origin: ErrorOrigin)
        ensures
            origin == ErrorOrigin::UNKNOWN,
    {
        ErrorOrigin::UNKNOWN
    }
}

/// An error of a TEE operation: its kind, and where it came from if that is
/// known.
#[derive(Clone, Copy, Debug, PartialEq, Eq, Structural)]
pub struct Error {
    kind: ErrorKind,
    origin: Option<ErrorOrigin>,
}

impl Error {
    /// The kind of this error.
    pub closed spec fn spec_kind(&self) -> ErrorKind {
        self.kind
    }

    /// The origin of this error, if known.
    pub closed spec fn spec_origin(&self) -> Option<ErrorOrigin> {
        self.origin
    }

    /// An error of the given kind, of unknown origin.
    pub fn new(kind: ErrorKind) -> (e: Error)
        ensures
            e.spec_kind() == kind,
            e.spec_origin() is None,
    {
        Error { kind, origin: None }
    }

    /// The error that a TEE status code stands for, of unknown origin.
    pub closed spec fn spec_from_raw(code: u32) -> Error {
        Error { kind: kind_from_code(code), origin: None }
    }

    /// The error that a TEE status code stands for, of unknown origin.
    pub fn from_raw_error(code: u32) -> (e: Error)
        ensures
            e.spec_kind() == kind_from_code(code),
            e.spec_origin() is None,
            e == Error::spec_from_raw(code),
    {
        Error { kind: ErrorKind::from_code(code), origin: None }
    }

    /// This error, with its origin set.
    pub fn with_origin(self, origin: ErrorOrigin) -> (e: Error)
        ensures
            e.spec_kind() == self.spec_kind(),
            e.spec_origin() == Some(origin),
    {
        Error { kind: self.kind, origin: Some(origin) }
    }

    /// The kind of this error.
    pub fn kind(&self) -> (kind: ErrorKind)
        ensures
            kind == self.spec_kind(),
    {
        self.kind
    }

    /// The origin of this error, if known.
    pub fn origin(&self) -> (origin: Option<ErrorOrigin>)
        ensures
            origin == self.spec_origin(),
    {
        self.origin
    }

    /// The status code of this error.
    pub fn raw_code(&self) -> (code: u32)
        ensures
            code == kind_code(self.spec_kind()),
    {
        self.kind.code()
    }

    /// The message that describes this error.
    pub fn message(&self) -> (s: &'static str)
        ensures
            s@ == kind_message(self.spec_kind()),
    {
        self.kind.as_str()
    }

    /// The error as its `Display` writes it: the message, then the status
    /// code and the code of the origin (zero if unknown) in lower-case
    /// hexadecimal.
    pub fn to_string(&self) -> (s: String)
        ensures
            s@ == error_text(*self),
    {
        let mut s = String::new();
        push_str(&mut s, self.message());
        push_str(&mut s, " (error code 0x");
        push_hex_padded(&mut s, self.raw_code() as u64, 0, false);
        push_str(&mut s, ", origin 0x");
        let o: u32 = match self.origin {
            Some(v) => v.code(),
            None => 0,
        };
        push_hex_padded(&mut s, o as u64, 0, false);
        push_str(&mut s, ")");
        assert(s@ =~= error_text(*self));
        s
    }

    /// The error of a kind, as `From<ErrorKind>` gives it.
    pub fn from_kind(kind: ErrorKind) -> (e: Error)
        ensures
            e.spec_kind() == kind,
            e.spec_origin() is None,
    {
        Error { kind, origin: None }
    }
}

/// How an error is written: its message, then its status code and the code
/// of its origin (zero if unknown) in lower-case hexadecimal.
pub open spec fn error_text(e: Error) -> Seq<char> {
    kind_message(e.spec_kind()) + " (error code 0x"@ + hex_padded(kind_code(e.spec_kind()) as nat, 0, false)
        + ", origin 0x"@ + hex_padded(
        match e.spec_origin() {
            Some(o) => origin_code(o),
            None => 0u32,
        } as nat,
        0,
        false,
    ) + ")"@
}

/// `e` is the error that the status code `code` stands for, of unknown
/// origin.
pub open spec fn is_code_error(e: Error, code: u32) -> bool {
    e.spec_kind() == kind_from_code(code) && e.spec_origin() is None
}

/// `e` is an error of the kind `kind`, of unknown origin.
pub open spec fn is_kind_error(e: Error, kind: ErrorKind) -> bool {
    e.spec_kind() == kind && e.spec_origin() is None
}

/// Two errors of the same kind and origin are the same error.
pub proof fn lemma_error_ext(a: Error, b: Error)
    ensures
        a.spec_kind() == b.spec_kind() && a.spec_origin() == b.spec_origin() ==> a == b,
{
}

/// The result of a TEE call that returned `status`: `Ok(())` on success,
/// else the error that the status code stands for.
pub fn check_status(status: u32) -> (r: Result<()>)
    ensures
        status == TEE_SUCCESS <==> r is Ok,
        r matches Err(e) ==> is_code_error(e, status),
{
    if status == TEE_SUCCESS {
        Ok(())
    } else {
        Err(Error::from_raw_error(status))
    }
}

/// The result of a TEE call that returned `status` and produced `value`:
/// `Ok(value)` on success, else the error that the status code stands for.
pub fn value_on_success<T>(status: u32, value: T) -> (r: Result<T>)
    ensures
        status == TEE_SUCCESS ==> r == Ok::<T, Error>(value),
        status != TEE_SUCCESS ==> (r matches Err(e) && is_code_error(e, status)),
{
    if status == TEE_SUCCESS {
        Ok(value)
    } else {
        Err(Error::from_raw_error(status))
    }
}

/// Each kind is the kind of its own status code.
pub proof fn lemma_kind_code_roundtrip(kind: ErrorKind)
    ensures
        kind_from_code(kind_code(kind)) == kind,
{
}

/// A status code that names a kind is the code of that kind; every other
/// code names `Unknown`.
pub proof fn lemma_code_kind_roundtrip(code: u32)
    ensures
        kind_from_code(code) != ErrorKind::Unknown ==> kind_code(kind_from_code(code)) == code,
{
}

/// Each kind of error is the GlobalPlatform `TEE_ERROR_*` status of its own
/// name, both ways: its code is that status, and that status reads as it.
pub proof fn lemma_kinds_are_named_by_their_codes()
    ensures
        kind_code(ErrorKind::CorruptObject) == TEE_ERROR_CORRUPT_OBJECT,
        kind_code(ErrorKind::CorruptObject2) == TEE_ERROR_CORRUPT_OBJECT_2,
        kind_code(ErrorKind::StorageNotAvailable) == TEE_ERROR_STORAGE_NOT_AVAILABLE,
        kind_code(ErrorKind::StorageNotAvailable2) == TEE_ERROR_STORAGE_NOT_AVAILABLE_2,
        kind_code(ErrorKind::Generic) == TEE_ERROR_GENERIC,
        kind_code(ErrorKind::AccessDenied) == TEE_ERROR_ACCESS_DENIED,
        kind_code(ErrorKind::Cancel) == TEE_ERROR_CANCEL,
        kind_code(ErrorKind::AccessConflict) == TEE_ERROR_ACCESS_CONFLICT,
        kind_code(ErrorKind::ExcessData) == TEE_ERROR_EXCESS_DATA,
        kind_code(ErrorKind::BadFormat) == TEE_ERROR_BAD_FORMAT,
        kind_code(ErrorKind::BadParameters) == TEE_ERROR_BAD_PARAMETERS,
        kind_code(ErrorKind::BadState) == TEE_ERROR_BAD_STATE,
        kind_code(ErrorKind::ItemNotFound) == TEE_ERROR_ITEM_NOT_FOUND,
        kind_code(ErrorKind::NotImplemented) == TEE_ERROR_NOT_IMPLEMENTED,
        kind_code(ErrorKind::NotSupported) == TEE_ERROR_NOT_SUPPORTED,
        kind_code(ErrorKind::NoData) == TEE_ERROR_NO_DATA,
        kind_code(ErrorKind::OutOfMemory) == TEE_ERROR_OUT_OF_MEMORY,
        kind_code(ErrorKind::Busy) == TEE_ERROR_BUSY,
        kind_code(ErrorKind::Communication) == TEE_ERROR_COMMUNICATION,
        kind_code(ErrorKind::Security) == TEE_ERROR_SECURITY,
        kind_code(ErrorKind::ShortBuffer) == TEE_ERROR_SHORT_BUFFER,
        kind_code(ErrorKind::ExternalCancel) == TEE_ERROR_EXTERNAL_CANCEL,
        kind_code(ErrorKind::Overflow) == TEE_ERROR_OVERFLOW,
        kind_code(ErrorKind::TargetDead) == TEE_ERROR_TARGET_DEAD,
        kind_code(ErrorKind::StorageNoSpace) == TEE_ERROR_STORAGE_NO_SPACE,
        kind_code(ErrorKind::MacInvalid) == TEE_ERROR_MAC_INVALID,
        kind_code(ErrorKind::SignatureInvalid) == TEE_ERROR_SIGNATURE_INVALID,
        kind_code(ErrorKind::TimeNotSet) == TEE_ERROR_TIME_NOT_SET,
        kind_code(ErrorKind::TimeNeedsReset) == TEE_ERROR_TIME_NEEDS_RESET,
        kind_from_code(TEE_ERROR_CORRUPT_OBJECT) == ErrorKind::CorruptObject,
        kind_from_code(TEE_ERROR_CORRUPT_OBJECT_2) == ErrorKind::CorruptObject2,
        kind_from_code(TEE_ERROR_STORAGE_NOT_AVAILABLE) == ErrorKind::StorageNotAvailable,
        kind_from_code(TEE_ERROR_STORAGE_NOT_AVAILABLE_2) == ErrorKind::StorageNotAvailable2,
        kind_from_code(TEE_ERROR_GENERIC) == ErrorKind::Generic,
        kind_from_code(TEE_ERROR_ACCESS_DENIED) == ErrorKind::AccessDenied,
        kind_from_code(TEE_ERROR_CANCEL) == ErrorKind::Cancel,
        kind_from_code(TEE_ERROR_ACCESS_CONFLICT) == ErrorKind::AccessConflict,
        kind_from_code(TEE_ERROR_EXCESS_DATA) == ErrorKind::ExcessData,
        kind_from_code(TEE_ERROR_BAD_FORMAT) == ErrorKind::BadFormat,
        kind_from_code(TEE_ERROR_BAD_PARAMETERS) == ErrorKind::BadParameters,
        kind_from_code(TEE_ERROR_BAD_STATE) == ErrorKind::BadState,
        kind_from_code(TEE_ERROR_ITEM_NOT_FOUND) == ErrorKind::ItemNotFound,
        kind_from_code(TEE_ERROR_NOT_IMPLEMENTED) == ErrorKind::NotImplemented,
        kind_from_code(TEE_ERROR_NOT_SUPPORTED) == ErrorKind::NotSupported,
        kind_from_code(TEE_ERROR_NO_DATA) == ErrorKind::NoData,
        kind_from_code(TEE_ERROR_OUT_OF_MEMORY) == ErrorKind::OutOfMemory,
        kind_from_code(TEE_ERROR_BUSY) == ErrorKind::Busy,
        kind_from_code(TEE_ERROR_COMMUNICATION) == ErrorKind::Communication,
        kind_from_code(TEE_ERROR_SECURITY) == ErrorKind::Security,
        kind_from_code(TEE_ERROR_SHORT_BUFFER) == ErrorKind::ShortBuffer,
        kind_from_code(TEE_ERROR_EXTERNAL_CANCEL) == ErrorKind::ExternalCancel,
        kind_from_code(TEE_ERROR_OVERFLOW) == ErrorKind::Overflow,
        kind_from_code(TEE_ERROR_TARGET_DEAD) == ErrorKind::TargetDead,
        kind_from_code(TEE_ERROR_STORAGE_NO_SPACE) == ErrorKind::StorageNoSpace,
        kind_from_code(TEE_ERROR_MAC_INVALID) == ErrorKind::MacInvalid,
        kind_from_code(TEE_ERROR_SIGNATURE_INVALID) == ErrorKind::SignatureInvalid,
        kind_from_code(TEE_ERROR_TIME_NOT_SET) == ErrorKind::TimeNotSet,
        kind_from_code(TEE_ERROR_TIME_NEEDS_RESET) == ErrorKind::TimeNeedsReset,
{
}

/// The error of a status code says what went wrong in the words of that
/// status: a failed signature check says the signature is invalid, a failed
/// MAC check that the MAC is invalid, and so on for every named status.
pub proof fn lemma_status_messages()
    ensures
        kind_message(kind_from_code(TEE_ERROR_CORRUPT_OBJECT)) == "Object corruption."@,
        kind_message(kind_from_code(TEE_ERROR_CORRUPT_OBJECT_2)) == "Persistent object corruption."@,
        kind_message(kind_from_code(TEE_ERROR_STORAGE_NOT_AVAILABLE)) == "Object storage is not available."@,
        kind_message(kind_from_code(TEE_ERROR_STORAGE_NOT_AVAILABLE_2)) == "Persistent object storage is not available."@,
        kind_message(kind_from_code(TEE_ERROR_GENERIC)) == "Non-specific cause."@,
        kind_message(kind_from_code(TEE_ERROR_ACCESS_DENIED)) == "Access privileges are not sufficient."@,
        kind_message(kind_from_code(TEE_ERROR_CANCEL)) == "The operation was canceled."@,
        kind_message(kind_from_code(TEE_ERROR_ACCESS_CONFLICT)) == "Concurrent accesses caused conflict."@,
        kind_message(kind_from_code(TEE_ERROR_EXCESS_DATA)) == "Too much data for the requested operation was passed."@,
        kind_message(kind_from_code(TEE_ERROR_BAD_FORMAT)) == "Input data was of invalid format."@,
        kind_message(kind_from_code(TEE_ERROR_BAD_PARAMETERS)) == "Input parameters were invalid."@,
        kind_message(kind_from_code(TEE_ERROR_BAD_STATE)) == "Operation is not valid in the current state."@,
        kind_message(kind_from_code(TEE_ERROR_ITEM_NOT_FOUND)) == "The requested data item is not found."@,
        kind_message(kind_from_code(TEE_ERROR_NOT_IMPLEMENTED)) == "The requested operation should exist but is not yet implemented."@,
        kind_message(kind_from_code(TEE_ERROR_NOT_SUPPORTED)) == "The requested operation is valid but is not supported in this implementation."@,
        kind_message(kind_from_code(TEE_ERROR_NO_DATA)) == "Expected data was missing."@,
        kind_message(kind_from_code(TEE_ERROR_OUT_OF_MEMORY)) == "System ran out of resources."@,
        kind_message(kind_from_code(TEE_ERROR_BUSY)) == "The system is busy working on something else."@,
        kind_message(kind_from_code(TEE_ERROR_COMMUNICATION)) == "Communication with a remote party failed."@,
        kind_message(kind_from_code(TEE_ERROR_SECURITY)) == "A security fault was detected."@,
        kind_message(kind_from_code(TEE_ERROR_SHORT_BUFFER)) == "The supplied buffer is too short for the generated output."@,
        kind_message(kind_from_code(TEE_ERROR_EXTERNAL_CANCEL)) == "The operation has been cancelled by an external event which occurred in the REE while the function was in progress."@,
        kind_message(kind_from_code(TEE_ERROR_OVERFLOW)) == "Data overflow."@,
        kind_message(kind_from_code(TEE_ERROR_TARGET_DEAD)) == "Trusted Application has panicked during the operation."@,
        kind_message(kind_from_code(TEE_ERROR_STORAGE_NO_SPACE)) == "Insufficient space is available."@,
        kind_message(kind_from_code(TEE_ERROR_MAC_INVALID)) == "MAC is invalid."@,
        kind_message(kind_from_code(TEE_ERROR_SIGNATURE_INVALID)) == "Signature is invalid."@,
        kind_message(kind_from_code(TEE_ERROR_TIME_NOT_SET)) == "The persistent time has not been set."@,
        kind_message(kind_from_code(TEE_ERROR_TIME_NEEDS_RESET)) == "The persistent time has been set but may have been corrupted and SHALL no longer be trusted."@,
{
}

/// No two kinds have the same status code.
pub proof fn lemma_kind_code_injective(a: ErrorKind, b: ErrorKind)
    ensures
        kind_code(a) == kind_code(b) ==> a == b,
{
    lemma_kind_code_roundtrip(a);
    lemma_kind_code_roundtrip(b);
}

/// No kind has the success code as its code.
pub proof fn lemma_kind_code_not_success(kind: ErrorKind)
    ensures
        kind_code(kind) != TEE_SUCCESS,
{
}

/// An error made from a status code that names a kind gives that code back.
pub proof fn lemma_raw_error_roundtrip(code: u32)
    ensures
        kind_from_code(code) != ErrorKind::Unknown ==> kind_code(Error::spec_from_raw(code).spec_kind()) == code,
{
}

/// Each origin is the origin of its own code, and a code that names an
/// origin other than `UNKNOWN` is that origin's code.
pub proof fn lemma_origin_code_roundtrip(origin: ErrorOrigin, code: u32)
    ensures
        origin_from_code(origin_code(origin)) == origin,
        origin_from_code(code) != ErrorOrigin::UNKNOWN ==> origin_code(origin_from_code(code)) == code,
{
}

} // verus!
