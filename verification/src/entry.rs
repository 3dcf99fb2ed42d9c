//! The entry points of a trusted application: which functions may stand for
//! them, and the status that each entry point returns to the TEE.

use vstd::prelude::*;
use crate::defines::{TEE_ERROR_SECURITY, TEE_SUCCESS};
use crate::error::{Error, ErrorKind, Result, is_kind_error, kind_code};

verus! {

/// The shape of a function that is to stand for an entry point.
#[derive(Clone, Copy, Debug, PartialEq, Eq, Structural)]
pub struct EntrySignature {
    /// The function is `const`.
    pub is_const: bool,
    /// The function is private to its module.
    pub is_private: bool,
    /// The function names an ABI.
    pub has_abi: bool,
    /// The number of its parameters.
    pub inputs: usize,
    /// The function has a `where` clause.
    pub has_where_clause: bool,
    /// The function is variadic.
    pub is_variadic: bool,
    /// The function returns `()`.
    pub returns_unit: bool,
}

/// The shape that every entry function has: not `const`, private, with no
/// ABI, no `where` clause and a fixed number of parameters.
pub open spec fn plain_function(s: EntrySignature) -> bool {
    !s.is_const && s.is_private && !s.has_abi && !s.has_where_clause && !s.is_variadic
}

/// The entry points of a TA.
#[derive(Clone, Copy, Debug, PartialEq, Eq, Structural)]
pub enum EntryPoint {
    Create,
    Destroy,
    OpenSession,
    CloseSession,
    InvokeCommand,
}

/// A function of this shape may stand for the entry point: `create` takes
/// nothing; `destroy` takes nothing and returns nothing; `open_session`
/// takes the parameters and perhaps a session context; `close_session`
/// takes perhaps a session context and returns nothing; `invoke_command`
/// takes perhaps a session context, the command and the parameters.
pub open spec fn valid_entry(e: EntryPoint, s: EntrySignature) -> bool {
    plain_function(s) && match e {
        EntryPoint::Create => s.inputs == 0,
        EntryPoint::Destroy => s.inputs == 0 && s.returns_unit,
        EntryPoint::OpenSession => s.inputs == 1 || s.inputs == 2,
        EntryPoint::CloseSession => (s.inputs == 0 || s.inputs == 1) && s.returns_unit,
        EntryPoint::InvokeCommand => s.inputs == 2 || s.inputs == 3,
    }
}

/// The message of a function that may not stand for the entry point.
pub open spec fn signature_message(e: EntryPoint) -> Seq<char> {
    match e {
        EntryPoint::Create => "`#[ta_crate]` function must have signature `fn() -> optee_utee::Result<()>`"@,
        EntryPoint::Destroy => "`#[ta_destroy]` function must have signature `fn()`"@,
        EntryPoint::OpenSession => "`#[ta_open_session]` function must have signature `fn(&mut Parameters) -> Result<()>` or `fn(&mut Parameters, &mut T) -> Result<()>`"@,
        EntryPoint::CloseSession => "`#[ta_close_session]` function must have signature `fn(&mut T)` or `fn()`"@,
        EntryPoint::InvokeCommand => "`#[ta_invoke_command]` function must have signature `fn(&mut T, u32, &mut Parameters) -> Result<()>` or `fn(u32, &mut Parameters) -> Result<()>`"@,
    }
}

impl EntryPoint {
    /// A function of the shape may stand for this entry point.
    pub fn accepts(&self, s: &EntrySignature) -> (b: bool)
        ensures
            b == valid_entry(*self, *s),
    {
        let plain = !s.is_const && s.is_private && !s.has_abi && !s.has_where_clause && !s.is_variadic;
        plain && match self {
            EntryPoint::Create => s.inputs == 0,
            EntryPoint::Destroy => s.inputs == 0 && s.returns_unit,
            EntryPoint::OpenSession => s.inputs == 1 || s.inputs == 2,
            EntryPoint::CloseSession => (s.inputs == 0 || s.inputs == 1) && s.returns_unit,
            EntryPoint::InvokeCommand => s.inputs == 2 || s.inputs == 3,
        }
    }

    /// The message for a function that may not stand for this entry point.
    pub fn signature_error(&self) -> (m: &'static str)
        ensures
            m@ == signature_message(*self),
    {
        match self {
            EntryPoint::Create => {
                proof {
                    reveal_strlit("`#[ta_crate]` function must have signature `fn() -> optee_utee::Result<()>`");
                }
                "`#[ta_crate]` function must have signature `fn() -> optee_utee::Result<()>`"
            },
            EntryPoint::Destroy => {
                proof {
                    reveal_strlit("`#[ta_destroy]` function must have signature `fn()`");
                }
                "`#[ta_destroy]` function must have signature `fn()`"
            },
            EntryPoint::OpenSession => {
                proof {
                    reveal_strlit(
                        "`#[ta_open_session]` function must have signature `fn(&mut Parameters) -> Result<()>` or `fn(&mut Parameters, &mut T) -> Result<()>`",
                    );
                }
                "`#[ta_open_session]` function must have signature `fn(&mut Parameters) -> Result<()>` or `fn(&mut Parameters, &mut T) -> Result<()>`"
            },
            EntryPoint::CloseSession => {
                proof {
                    reveal_strlit("`#[ta_close_session]` function must have signature `fn(&mut T)` or `fn()`");
                }
                "`#[ta_close_session]` function must have signature `fn(&mut T)` or `fn()`"
            },
            EntryPoint::InvokeCommand => {
                proof {
                    reveal_strlit(
                        "`#[ta_invoke_command]` function must have signature `fn(&mut T, u32, &mut Parameters) -> Result<()>` or `fn(u32, &mut Parameters) -> Result<()>`",
                    );
                }
                "`#[ta_invoke_command]` function must have signature `fn(&mut T, u32, &mut Parameters) -> Result<()>` or `fn(u32, &mut Parameters) -> Result<()>`"
            },
        }
    }
}

/// The status that an entry point returns for the result of its function:
/// success, or the status code of the error.
pub open spec fn result_status(r: Result<()>) -> u32 {
    match r {
        Ok(_) => TEE_SUCCESS,
        Err(e) => kind_code(e.spec_kind()),
    }
}

/// The status that an entry point returns for the result of its function.
pub fn entry_status(r: &Result<()>) -> (s: u32)
    ensures
        s == result_status(*r),
{
    match r {
        Ok(_) => TEE_SUCCESS,
        Err(e) => e.raw_code(),
    }
}

/// The status that the command entry point of a TA with sessions returns:
/// without a session context it refuses the command with
/// `TEE_ERROR_SECURITY`, without running it; with one, the status of the
/// command's result.
pub fn invoke_command_status(has_session: bool, r: &Result<()>) -> (s: u32)
    ensures
        !has_session ==> s == TEE_ERROR_SECURITY,
        has_session ==> s == result_status(*r),
{
    if !has_session {
        return TEE_ERROR_SECURITY;
    }
    entry_status(r)
}

/// The command entry point of a TA with sessions: without a session context
/// it returns `TEE_ERROR_SECURITY` and does not run the command; with one, it
/// runs the command once and returns the status of its result.
pub fn run_invoke_command<F: FnOnce() -> Result<()>>(has_session: bool, command: F) -> (s: u32)
    requires
        has_session ==> call_requires(command, ()),
    ensures
        !has_session ==> s == TEE_ERROR_SECURITY,
        has_session ==> exists|r: Result<()>| call_ensures(command, (), r) && s == result_status(r),
{
    if !has_session {
        return TEE_ERROR_SECURITY;
    }
    let r = command();
    invoke_command_status(true, &r)
}

/// The context of a session, in memory that the TEE allocated; a null
/// pointer (zero) is no context.
pub struct Session {
    raw: u64,
}

impl View for Session {
    type V = u64;

    closed spec fn view(&self) -> u64 {
        self.raw
    }
}

impl Session {
    /// The session of the context at `raw`.
    pub fn new(raw: u64) -> (s: Session)
        ensures
            s@ == raw,
    {
        Session { raw }
    }

    /// The session of the memory that the TEE allocated at `ptr`: none at
    /// all is `OutOfMemory`.
    pub fn allocated(ptr: u64) -> (r: Result<Session>)
        ensures
            r is Ok <==> ptr != 0,
            r matches Ok(s) ==> s@ == ptr,
            r matches Err(e) ==> is_kind_error(e, ErrorKind::OutOfMemory),
    {
        if ptr == 0 {
            Err(Error::new(ErrorKind::OutOfMemory))
        } else {
            Ok(Session::new(ptr))
        }
    }

    /// The session has a context; one without is `ItemNotFound`.
    pub fn validate(&mut self) -> (r: Result<()>)
        ensures
            r is Ok <==> old(self)@ != 0,
            r matches Err(e) ==> is_kind_error(e, ErrorKind::ItemNotFound),
            final(self)@ == old(self)@,
    {
        if self.raw == 0 {
            Err(Error::new(ErrorKind::ItemNotFound))
        } else {
            Ok(())
        }
    }

    /// Takes the context back after it was lent out.
    pub fn collect(&mut self, box_ptr: u64)
        ensures
            final(self)@ == box_ptr,
    {
        self.raw = box_ptr;
    }
}

/// An entry point that returns success never returns an error's code: the
/// status of a result is success exactly when the result is.
pub proof fn lemma_result_status_success(r: Result<()>)
    ensures
        (result_status(r) == TEE_SUCCESS) <==> r is Ok,
{
    if let Err(e) = r {
        crate::error::lemma_kind_code_not_success(e.spec_kind());
    }
}

} // verus!
