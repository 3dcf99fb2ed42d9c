//! Sessions that a trusted application opens with another TA, and the
//! commands it invokes in them.

use vstd::prelude::*;
use crate::defines::TEE_SUCCESS;
use crate::error::{Error, Result, is_code_error};
use crate::parameter::RawParam;
use crate::tee_parameter::{TeeParams, state_raw, state_type};
use crate::parameter::pack_types;
use crate::uuid::Uuid;

verus! {

/// A call of the TEE's interface to other TAs, with the values it is made
/// with.
pub enum TaSessionCall {
    Open { uuid: Uuid, timeout: u32, param_types: u32, params: Vec<RawParam> },
    Invoke { session: u64, timeout: u32, command_id: u32, param_types: u32, params: Vec<RawParam> },
    Close { session: u64 },
}

/// The parameters are handed as `params` with the packed types
/// `param_types`.
pub open spec fn hands_params(t: TeeParams, param_types: u32, params: Seq<RawParam>) -> bool {
    &&& param_types == pack_types(
        state_type(t@[0]),
        state_type(t@[1]),
        state_type(t@[2]),
        state_type(t@[3]),
    )
    &&& params.len() == 4
    &&& forall|i: int|
        0 <= i < 4 ==> ((#[trigger] params[i]).buffer@, params[i].size, params[i].a, params[i].b)
            == state_raw(t@[i])
}

/// A session with another TA.
pub struct TaSession {
    raw: u64,
}

impl View for TaSession {
    type V = u64;

    closed spec fn view(&self) -> u64 {
        self.raw
    }
}

impl TaSession {
    /// The call that opens a session with the TA of `uuid`, with no
    /// parameters.
    pub fn new(uuid: Uuid, timeout: u32) -> (c: TaSessionCall)
        ensures
            c matches TaSessionCall::Open { uuid: u, timeout: t, param_types, params } && u == uuid
                && t == timeout && param_types == 0 && params@.len() == 0,
    {
        TaSessionCall::Open { uuid, timeout, param_types: 0, params: Vec::new() }
    }

    /// The call that opens a session with the TA of `uuid`, handing it the
    /// parameters.
    pub fn new_with_params(uuid: Uuid, timeout: u32, params: &TeeParams) -> (c: TaSessionCall)
        ensures
            c matches TaSessionCall::Open { uuid: u, timeout: t, param_types, params: p } && u
                == uuid && t == timeout && hands_params(*params, param_types, p@),
    {
        proof {
            params.lemma_len();
        }
        TaSessionCall::Open {
            uuid,
            timeout,
            param_types: params.raw_param_types(),
            params: params.as_raw(),
        }
    }

    /// The session that opening returned with `status` and `handle`.
    pub fn open(status: u32, handle: u64) -> (r: Result<TaSession>)
        ensures
            status == TEE_SUCCESS ==> (r matches Ok(s) && s@ == handle),
            status != TEE_SUCCESS ==> (r matches Err(e) && is_code_error(e, status)),
    {
        if status == TEE_SUCCESS {
            Ok(TaSession { raw: handle })
        } else {
            Err(Error::from_raw_error(status))
        }
    }

    /// The raw handle of the session.
    pub fn as_mut_raw_ptr(&mut self) -> (h: u64)
        ensures
            h == old(self)@,
            final(self)@ == old(self)@,
    {
        self.raw
    }

    /// The call that invokes the command in the session, handing it the
    /// parameters; its status goes through `check_status`, and its
    /// parameters back through `TeeParams::update_from_raw`.
    pub fn invoke_command(&mut self, timeout: u32, command_id: u32, params: &TeeParams) -> (c:
        TaSessionCall)
        ensures
            c matches TaSessionCall::Invoke { session, timeout: t, command_id: id, param_types, params: p }
                && session == old(self)@ && t == timeout && id == command_id && hands_params(
                *params,
                param_types,
                p@,
            ),
            final(self)@ == old(self)@,
    {
        proof {
            params.lemma_len();
        }
        TaSessionCall::Invoke {
            session: self.raw,
            timeout,
            command_id,
            param_types: params.raw_param_types(),
            params: params.as_raw(),
        }
    }

    /// What dropping the session asks of the TEE: to close it.
    pub fn close_call(&self) -> (c: TaSessionCall)
        ensures
            c == (TaSessionCall::Close { session: self@ }),
    {
        TaSessionCall::Close { session: self.raw }
    }
}

} // verus!
