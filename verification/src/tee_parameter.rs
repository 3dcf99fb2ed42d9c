//! The four parameters that a trusted application hands to another TA when
//! it invokes a command, and how they are read back after the call.

use vstd::prelude::*;
use crate::error::{Error, ErrorKind, Result, is_kind_error};
use crate::parameter::{ParamType, RawParam, lemma_pack_unpack, pack_types, param_type_code, param_type_from_code, type_nibble};

verus! {

/// The position of a parameter in the list of four.
#[derive(Clone, Copy, Debug, PartialEq, Eq, Structural)]
pub enum ParamIndex {
    Arg0,
    Arg1,
    Arg2,
    Arg3,
}

/// The position of `idx` as a number.
pub open spec fn index_of(idx: ParamIndex) -> int {
    match idx {
        ParamIndex::Arg0 => 0,
        ParamIndex::Arg1 => 1,
        ParamIndex::Arg2 => 2,
        ParamIndex::Arg3 => 3,
    }
}

/// What one parameter holds.
pub enum ParamContent {
    Empty,
    MemrefInput { buffer: Vec<u8> },
    MemrefOutput { buffer: Vec<u8>, written: usize },
    MemrefInout { buffer: Vec<u8>, written: usize },
    ValueInput { a: u32, b: u32 },
    ValueOutput { a: u32, b: u32 },
    ValueInout { a: u32, b: u32 },
}

/// The model of a parameter: its buffer as a sequence, and for an output
/// buffer how much of it the callee wrote.
pub enum ParamState {
    Empty,
    MemrefInput { buffer: Seq<u8> },
    MemrefOutput { buffer: Seq<u8>, written: nat },
    MemrefInout { buffer: Seq<u8>, written: nat },
    ValueInput { a: u32, b: u32 },
    ValueOutput { a: u32, b: u32 },
    ValueInout { a: u32, b: u32 },
}

/// The model of a parameter's content.
pub open spec fn content_state(c: ParamContent) -> ParamState {
    match c {
        ParamContent::Empty => ParamState::Empty,
        ParamContent::MemrefInput { buffer } => ParamState::MemrefInput { buffer: buffer@ },
        ParamContent::MemrefOutput { buffer, written } => ParamState::MemrefOutput {
            buffer: buffer@,
            written: written as nat,
        },
        ParamContent::MemrefInout { buffer, written } => ParamState::MemrefInout {
            buffer: buffer@,
            written: written as nat,
        },
        ParamContent::ValueInput { a, b } => ParamState::ValueInput { a, b },
        ParamContent::ValueOutput { a, b } => ParamState::ValueOutput { a, b },
        ParamContent::ValueInout { a, b } => ParamState::ValueInout { a, b },
    }
}

/// The type of a parameter in a given state.
pub open spec fn state_type(s: ParamState) -> ParamType {
    match s {
        ParamState::Empty => ParamType::Empty,
        ParamState::MemrefInput { .. } => ParamType::MemrefInput,
        ParamState::MemrefOutput { .. } => ParamType::MemrefOutput,
        ParamState::MemrefInout { .. } => ParamType::MemrefInout,
        ParamState::ValueInput { .. } => ParamType::ValueInput,
        ParamState::ValueOutput { .. } => ParamType::ValueOutput,
        ParamState::ValueInout { .. } => ParamType::ValueInout,
    }
}

/// An output buffer never claims more written bytes than it holds.
pub open spec fn state_wf(s: ParamState) -> bool {
    match s {
        ParamState::MemrefOutput { buffer, written } => written <= buffer.len(),
        ParamState::MemrefInout { buffer, written } => written <= buffer.len(),
        _ => true,
    }
}

/// The parameter as the TEE sees it: the two values of a value parameter,
/// or a buffer of its full length for a memory reference.
pub open spec fn state_raw(s: ParamState) -> (Seq<u8>, usize, u32, u32) {
    match s {
        ParamState::Empty => (Seq::empty(), 0usize, 0u32, 0u32),
        ParamState::MemrefInput { buffer } => (buffer, buffer.len() as usize, 0u32, 0u32),
        ParamState::MemrefOutput { buffer, .. } => (buffer, buffer.len() as usize, 0u32, 0u32),
        ParamState::MemrefInout { buffer, .. } => (buffer, buffer.len() as usize, 0u32, 0u32),
        ParamState::ValueInput { a, b } => (Seq::empty(), 0usize, a, b),
        ParamState::ValueOutput { a, b } => (Seq::empty(), 0usize, a, b),
        ParamState::ValueInout { a, b } => (Seq::empty(), 0usize, a, b),
    }
}

/// Reading back an output buffer fails when the callee claims to have written
/// more than the buffer holds.
pub open spec fn update_fails(s: ParamState, r: RawParam) -> bool {
    match s {
        ParamState::MemrefOutput { buffer, .. } => r.size > buffer.len(),
        ParamState::MemrefInout { buffer, .. } => r.size > buffer.len(),
        _ => false,
    }
}

/// A parameter after the callee returned `r` for it: an output buffer takes
/// the bytes of the shared memory and the written size, an output value takes
/// the two values, and every other parameter is left as it was.
pub open spec fn updated(s: ParamState, r: RawParam) -> ParamState {
    match s {
        ParamState::MemrefOutput { .. } => ParamState::MemrefOutput {
            buffer: r.buffer@,
            written: r.size as nat,
        },
        ParamState::MemrefInout { .. } => ParamState::MemrefInout {
            buffer: r.buffer@,
            written: r.size as nat,
        },
        ParamState::ValueOutput { .. } => ParamState::ValueOutput { a: r.a, b: r.b },
        ParamState::ValueInout { .. } => ParamState::ValueInout { a: r.a, b: r.b },
        _ => s,
    }
}

/// The shared memory that comes back for an output buffer is the buffer
/// itself: it keeps its length.
pub open spec fn shares_buffer(s: ParamState, r: RawParam) -> bool {
    match s {
        ParamState::MemrefOutput { buffer, .. } => r.buffer@.len() == buffer.len(),
        ParamState::MemrefInout { buffer, .. } => r.buffer@.len() == buffer.len(),
        _ => true,
    }
}

/// One parameter of a command.
pub struct Param {
    content: ParamContent,
}

impl View for Param {
    type V = ParamState;

    closed spec fn view(&self) -> ParamState {
        content_state(self.content)
    }
}

impl Param {
    #[verifier::type_invariant]
    closed spec fn inv(self) -> bool {
        state_wf(content_state(self.content))
    }

    fn new() -> (p: Param)
        ensures
            p@ == ParamState::Empty,
    {
        Param { content: ParamContent::Empty }
    }

    /// The part of an output buffer that the callee wrote; `None` for a
    /// parameter of another type.
    pub fn written_slice(&self) -> (r: Option<&[u8]>)
        ensures
            match self@ {
                ParamState::MemrefOutput { buffer, written } => r is Some && r->0@ == buffer.take(
                    written as int,
                ),
                ParamState::MemrefInout { buffer, written } => r is Some && r->0@ == buffer.take(
                    written as int,
                ),
                _ => r is None,
            },
            r is None <==> written_part(self@) is None,
            r matches Some(x) ==> written_part(self@) == Some(x@),
    {
        proof {
            use_type_invariant(self);
        }
        match &self.content {
            ParamContent::MemrefOutput { buffer, written } => {
                let s = buffer.as_slice();
                Some(&s[0..*written])
            },
            ParamContent::MemrefInout { buffer, written } => {
                let s = buffer.as_slice();
                Some(&s[0..*written])
            },
            _ => None,
        }
    }

    /// The two values of an output value; `None` for a parameter of another
    /// type.
    pub fn output_value(&self) -> (r: Option<(u32, u32)>)
        ensures
            match self@ {
                ParamState::ValueOutput { a, b } => r == Some((a, b)),
                ParamState::ValueInout { a, b } => r == Some((a, b)),
                _ => r is None,
            },
    {
        match &self.content {
            ParamContent::ValueOutput { a, b } => Some((*a, *b)),
            ParamContent::ValueInout { a, b } => Some((*a, *b)),
            _ => None,
        }
    }

    /// The type of the parameter.
    pub fn get_type(&self) -> (t: ParamType)
        ensures
            t == state_type(self@),
    {
        match &self.content {
            ParamContent::Empty => ParamType::Empty,
            ParamContent::MemrefInput { .. } => ParamType::MemrefInput,
            ParamContent::MemrefOutput { .. } => ParamType::MemrefOutput,
            ParamContent::MemrefInout { .. } => ParamType::MemrefInout,
            ParamContent::ValueInput { .. } => ParamType::ValueInput,
            ParamContent::ValueOutput { .. } => ParamType::ValueOutput,
            ParamContent::ValueInout { .. } => ParamType::ValueInout,
        }
    }

    /// The code of the parameter's type.
    pub fn get_raw_type(&self) -> (v: u32)
        ensures
            v == param_type_code(state_type(self@)),
    {
        self.get_type().code()
    }

    /// The parameter as it is handed to the TEE.
    pub fn as_raw(&self) -> (r: RawParam)
        ensures
            (r.buffer@, r.size, r.a, r.b) == state_raw(self@),
    {
        match &self.content {
            ParamContent::Empty => RawParam { a: 0, b: 0, buffer: Vec::new(), size: 0 },
            ParamContent::MemrefInput { buffer } => RawParam::memref(
                vstd::slice::slice_to_vec(buffer.as_slice()),
            ),
            ParamContent::MemrefOutput { buffer, .. } => RawParam::memref(
                vstd::slice::slice_to_vec(buffer.as_slice()),
            ),
            ParamContent::MemrefInout { buffer, .. } => RawParam::memref(
                vstd::slice::slice_to_vec(buffer.as_slice()),
            ),
            ParamContent::ValueInput { a, b } => RawParam::value(*a, *b),
            ParamContent::ValueOutput { a, b } => RawParam::value(*a, *b),
            ParamContent::ValueInout { a, b } => RawParam::value(*a, *b),
        }
    }

    /// Takes the written size of an output buffer from what the callee
    /// returned, with the bytes it wrote. A size beyond the buffer is
    /// `BadParameters`, a parameter that is no output buffer is `BadFormat`;
    /// either way the parameter is left as it was.
    pub fn update_size_from_raw(&mut self, raw_param: &RawParam) -> (r: Result<()>)
        requires
            shares_buffer(old(self)@, *raw_param),
        ensures
            match old(self)@ {
                ParamState::MemrefOutput { .. } | ParamState::MemrefInout { .. } => {
                    &&& (r is Ok <==> !update_fails(old(self)@, *raw_param))
                    &&& (r is Ok ==> final(self)@ == updated(old(self)@, *raw_param))
                    &&& (r matches Err(e) ==> is_kind_error(e, ErrorKind::BadParameters)
                        && final(self)@ == old(self)@)
                },
                _ => r matches Err(e) && is_kind_error(e, ErrorKind::BadFormat) && final(self)@
                    == old(self)@,
            },
    {
        let is_output = match &self.content {
            ParamContent::MemrefOutput { buffer, .. } => Some(buffer.len()),
            ParamContent::MemrefInout { buffer, .. } => Some(buffer.len()),
            _ => None,
        };
        match is_output {
            Some(len) => {
                if raw_param.size > len {
                    return Err(Error::new(ErrorKind::BadParameters));
                }
                let buffer = vstd::slice::slice_to_vec(raw_param.buffer.as_slice());
                let written = raw_param.size;
                let content = match &self.content {
                    ParamContent::MemrefOutput { .. } => ParamContent::MemrefOutput {
                        buffer,
                        written,
                    },
                    _ => ParamContent::MemrefInout { buffer, written },
                };
                *self = Param { content };
                Ok(())
            },
            None => Err(Error::new(ErrorKind::BadFormat)),
        }
    }

    /// Takes the two values of an output value from what the callee
    /// returned; other parameters are left as they were.
    pub fn update_value_from_raw(&mut self, raw_param: &RawParam)
        ensures
            match old(self)@ {
                ParamState::ValueOutput { .. } | ParamState::ValueInout { .. } => final(self)@
                    == updated(old(self)@, *raw_param),
                _ => final(self)@ == old(self)@,
            },
    {
        let a = raw_param.a;
        let b = raw_param.b;
        match &self.content {
            ParamContent::ValueInout { .. } => {
                *self = Param { content: ParamContent::ValueInout { a, b } };
            },
            ParamContent::ValueOutput { .. } => {
                *self = Param { content: ParamContent::ValueOutput { a, b } };
            },
            _ => {},
        }
    }
}

/// No parameter before position `n` fails to be read back.
pub open spec fn no_failure_before(s: Seq<ParamState>, raws: Seq<RawParam>, n: int) -> bool {
    forall|j: int| 0 <= j < n ==> !update_fails(#[trigger] s[j], raws[j])
}

/// Reads back one parameter after the callee returned `raw_param` for it.
fn update_param(p: &mut Param, raw_param: &RawParam) -> (r: Result<()>)
    requires
        shares_buffer(old(p)@, *raw_param),
    ensures
        r is Ok <==> !update_fails(old(p)@, *raw_param),
        r is Ok ==> final(p)@ == updated(old(p)@, *raw_param),
        r matches Err(e) ==> is_kind_error(e, ErrorKind::BadParameters) && final(p)@ == old(p)@,
{
    match p.get_type() {
        ParamType::MemrefOutput | ParamType::MemrefInout => p.update_size_from_raw(raw_param),
        ParamType::ValueOutput | ParamType::ValueInout => {
            p.update_value_from_raw(raw_param);
            Ok(())
        },
        _ => Ok(()),
    }
}

/// The four parameters of a command.
pub struct TeeParams {
    p0: Param,
    p1: Param,
    p2: Param,
    p3: Param,
}

impl View for TeeParams {
    type V = Seq<ParamState>;

    closed spec fn view(&self) -> Seq<ParamState> {
        seq![self.p0@, self.p1@, self.p2@, self.p3@]
    }
}

impl TeeParams {
    /// There are always four parameters.
    pub proof fn lemma_len(&self)
        ensures
            self@.len() == 4,
    {
    }

    /// Four empty parameters.
    pub fn new() -> (t: TeeParams)
        ensures
            t@ == seq![ParamState::Empty, ParamState::Empty, ParamState::Empty, ParamState::Empty],
    {
        TeeParams { p0: Param::new(), p1: Param::new(), p2: Param::new(), p3: Param::new() }
    }

    /// The parameter at `idx`.
    pub fn get(&self, idx: ParamIndex) -> (p: &Param)
        ensures
            p@ == self@[index_of(idx)],
            state_wf(p@),
    {
        let p = match idx {
            ParamIndex::Arg0 => &self.p0,
            ParamIndex::Arg1 => &self.p1,
            ParamIndex::Arg2 => &self.p2,
            ParamIndex::Arg3 => &self.p3,
        };
        proof {
            use_type_invariant(p);
        }
        p
    }

    fn put(&mut self, idx: ParamIndex, content: ParamContent)
        requires
            state_wf(content_state(content)),
        ensures
            final(self)@ == old(self)@.update(index_of(idx), content_state(content)),
    {
        let p = Param { content };
        match idx {
            ParamIndex::Arg0 => self.p0 = p,
            ParamIndex::Arg1 => self.p1 = p,
            ParamIndex::Arg2 => self.p2 = p,
            ParamIndex::Arg3 => self.p3 = p,
        }
        assert(self@ =~= old(self)@.update(index_of(idx), content_state(content)));
    }

    /// Sets an input buffer, a copy of `buffer`, at `idx`.
    pub fn with_memref_in(self, idx: ParamIndex, buffer: &[u8]) -> (t: TeeParams)
        ensures
            t@ == self@.update(index_of(idx), ParamState::MemrefInput { buffer: buffer@ }),
    {
        let mut t = self;
        t.set_memref_in(idx, buffer);
        t
    }

    /// Sets an output buffer, a copy of `buffer`, at `idx`, with nothing
    /// written yet.
    pub fn with_memref_out(self, idx: ParamIndex, buffer: &[u8]) -> (t: TeeParams)
        ensures
            t@ == self@.update(
                index_of(idx),
                ParamState::MemrefOutput { buffer: buffer@, written: 0 },
            ),
    {
        let mut t = self;
        t.set_memref_out(idx, buffer);
        t
    }

    /// Sets an input and output buffer, a copy of `buffer`, at `idx`, with
    /// nothing written yet.
    pub fn with_memref_inout(self, idx: ParamIndex, buffer: &[u8]) -> (t: TeeParams)
        ensures
            t@ == self@.update(
                index_of(idx),
                ParamState::MemrefInout { buffer: buffer@, written: 0 },
            ),
    {
        let mut t = self;
        t.set_memref_inout(idx, buffer);
        t
    }

    /// Sets an input value at `idx`.
    pub fn with_value_in(self, idx: ParamIndex, a: u32, b: u32) -> (t: TeeParams)
        ensures
            t@ == self@.update(index_of(idx), ParamState::ValueInput { a, b }),
    {
        let mut t = self;
        t.set_value_in(idx, a, b);
        t
    }

    /// Sets an output value at `idx`.
    pub fn with_value_out(self, idx: ParamIndex, a: u32, b: u32) -> (t: TeeParams)
        ensures
            t@ == self@.update(index_of(idx), ParamState::ValueOutput { a, b }),
    {
        let mut t = self;
        t.set_value_out(idx, a, b);
        t
    }

    /// Sets an input and output value at `idx`.
    pub fn with_value_inout(self, idx: ParamIndex, a: u32, b: u32) -> (t: TeeParams)
        ensures
            t@ == self@.update(index_of(idx), ParamState::ValueInout { a, b }),
    {
        let mut t = self;
        t.set_value_inout(idx, a, b);
        t
    }

    /// Sets an input buffer, a copy of `buffer`, at `idx`.
    pub fn set_memref_in(&mut self, idx: ParamIndex, buffer: &[u8]) -> (t: &mut TeeParams)
        ensures
            t@ == old(self)@.update(
                index_of(idx),
                ParamState::MemrefInput { buffer: buffer@ },
            ),
            final(self)@ == final(t)@,
    {
        let buffer = vstd::slice::slice_to_vec(buffer);
        self.put(idx, ParamContent::MemrefInput { buffer });
        self
    }

    /// Sets an output buffer, a copy of `buffer`, at `idx`, with nothing
    /// written yet.
    pub fn set_memref_out(&mut self, idx: ParamIndex, buffer: &[u8]) -> (t: &mut TeeParams)
        ensures
            t@ == old(self)@.update(
                index_of(idx),
                ParamState::MemrefOutput { buffer: buffer@, written: 0 },
            ),
            final(self)@ == final(t)@,
    {
        let buffer = vstd::slice::slice_to_vec(buffer);
        self.put(idx, ParamContent::MemrefOutput { buffer, written: 0 });
        self
    }

    /// Sets an input and output buffer, a copy of `buffer`, at `idx`, with
    /// nothing written yet.
    pub fn set_memref_inout(&mut self, idx: ParamIndex, buffer: &[u8]) -> (t: &mut TeeParams)
        ensures
            t@ == old(self)@.update(
                index_of(idx),
                ParamState::MemrefInout { buffer: buffer@, written: 0 },
            ),
            final(self)@ == final(t)@,
    {
        let buffer = vstd::slice::slice_to_vec(buffer);
        self.put(idx, ParamContent::MemrefInout { buffer, written: 0 });
        self
    }

    /// Sets an input value at `idx`.
    pub fn set_value_in(&mut self, idx: ParamIndex, a: u32, b: u32) -> (t: &mut TeeParams)
        ensures
            t@ == old(self)@.update(index_of(idx), ParamState::ValueInput { a, b }),
            final(self)@ == final(t)@,
    {
        self.put(idx, ParamContent::ValueInput { a, b });
        self
    }

    /// Sets an output value at `idx`.
    pub fn set_value_out(&mut self, idx: ParamIndex, a: u32, b: u32) -> (t: &mut TeeParams)
        ensures
            t@ == old(self)@.update(index_of(idx), ParamState::ValueOutput { a, b }),
            final(self)@ == final(t)@,
    {
        self.put(idx, ParamContent::ValueOutput { a, b });
        self
    }

    /// Sets an input and output value at `idx`.
    pub fn set_value_inout(&mut self, idx: ParamIndex, a: u32, b: u32) -> (t: &mut TeeParams)
        ensures
            t@ == old(self)@.update(index_of(idx), ParamState::ValueInout { a, b }),
            final(self)@ == final(t)@,
    {
        self.put(idx, ParamContent::ValueInout { a, b });
        self
    }

    /// The packed types of the four parameters, four bits each.
    pub fn raw_param_types(&self) -> (v: u32)
        ensures
            v == pack_types(
                state_type(self@[0]),
                state_type(self@[1]),
                state_type(self@[2]),
                state_type(self@[3]),
            ),
    {
        let c0 = self.p0.get_raw_type();
        let c1 = self.p1.get_raw_type();
        let c2 = self.p2.get_raw_type();
        let c3 = self.p3.get_raw_type();
        proof {
            crate::parameter::lemma_param_type_roundtrip(state_type(self@[0]));
            crate::parameter::lemma_param_type_roundtrip(state_type(self@[1]));
            crate::parameter::lemma_param_type_roundtrip(state_type(self@[2]));
            crate::parameter::lemma_param_type_roundtrip(state_type(self@[3]));
        }
        let v = c0 | (c1 << 4u32) | (c2 << 8u32) | (c3 << 12u32);
        assert(v == c0 + 16 * c1 + 256 * c2 + 4096 * c3) by (bit_vector)
            requires
                c0 < 16,
                c1 < 16,
                c2 < 16,
                c3 < 16,
                v == c0 | (c1 << 4u32) | (c2 << 8u32) | (c3 << 12u32),
        ;
        v
    }

    /// The four parameters as they are handed to the TEE.
    pub fn as_raw(&self) -> (r: Vec<RawParam>)
        ensures
            r@.len() == 4,
            forall|i: int|
                0 <= i < 4 ==> ((#[trigger] r@[i]).buffer@, r@[i].size, r@[i].a, r@[i].b)
                    == state_raw(self@[i]),
    {
        let mut r: Vec<RawParam> = Vec::new();
        r.push(self.p0.as_raw());
        r.push(self.p1.as_raw());
        r.push(self.p2.as_raw());
        r.push(self.p3.as_raw());
        r
    }

    /// Reads back what the callee returned, parameter by parameter in order:
    /// output buffers take their written size and bytes, output values their
    /// two values. At the first output buffer whose size is beyond it, this
    /// stops with `BadParameters`, and that parameter and those after it are
    /// left as they were.
    pub fn update_from_raw(&mut self, raw_params: &Vec<RawParam>) -> (r: Result<()>)
        requires
            raw_params@.len() == 4,
            forall|i: int| 0 <= i < 4 ==> shares_buffer(old(self)@[i], #[trigger] raw_params@[i]),
        ensures
            r is Ok <==> no_failure_before(old(self)@, raw_params@, 4),
            r matches Err(e) ==> is_kind_error(e, ErrorKind::BadParameters),
            forall|i: int|
                0 <= i < 4 ==> #[trigger] final(self)@[i] == if no_failure_before(
                    old(self)@,
                    raw_params@,
                    i + 1,
                ) {
                    updated(old(self)@[i], raw_params@[i])
                } else {
                    old(self)@[i]
                },
    {
        let ghost s0 = self@;
        let ghost rs = raw_params@;
        assert(shares_buffer(s0[0], rs[0]) && shares_buffer(s0[1], rs[1]) && shares_buffer(s0[2], rs[2])
            && shares_buffer(s0[3], rs[3]));
        let r0 = update_param(&mut self.p0, &raw_params[0]);
        if let Err(e) = r0 {
            assert(update_fails(s0[0], rs[0]));
            assert(!no_failure_before(s0, rs, 1));
            assert(!no_failure_before(s0, rs, 2));
            assert(!no_failure_before(s0, rs, 3));
            assert(!no_failure_before(s0, rs, 4));
            return Err(e);
        }
        assert(no_failure_before(s0, rs, 1));
        let r1 = update_param(&mut self.p1, &raw_params[1]);
        if let Err(e) = r1 {
            assert(update_fails(s0[1], rs[1]));
            assert(!no_failure_before(s0, rs, 2));
            assert(!no_failure_before(s0, rs, 3));
            assert(!no_failure_before(s0, rs, 4));
            return Err(e);
        }
        assert(no_failure_before(s0, rs, 2));
        let r2 = update_param(&mut self.p2, &raw_params[2]);
        if let Err(e) = r2 {
            assert(update_fails(s0[2], rs[2]));
            assert(!no_failure_before(s0, rs, 3));
            assert(!no_failure_before(s0, rs, 4));
            return Err(e);
        }
        assert(no_failure_before(s0, rs, 3));
        let r3 = update_param(&mut self.p3, &raw_params[3]);
        if let Err(e) = r3 {
            assert(update_fails(s0[3], rs[3]));
            assert(!no_failure_before(s0, rs, 4));
            return Err(e);
        }
        assert(no_failure_before(s0, rs, 4));
        Ok(())
    }
}

/// The packed types handed to the TEE read back, parameter by parameter, as
/// the types of the parameters.
pub proof fn lemma_raw_types_read_back(s0: ParamState, s1: ParamState, s2: ParamState, s3: ParamState)
    ensures
        param_type_from_code(type_nibble(pack_types(state_type(s0), state_type(s1), state_type(s2), state_type(s3)), 0)) == state_type(s0),
        param_type_from_code(type_nibble(pack_types(state_type(s0), state_type(s1), state_type(s2), state_type(s3)), 1)) == state_type(s1),
        param_type_from_code(type_nibble(pack_types(state_type(s0), state_type(s1), state_type(s2), state_type(s3)), 2)) == state_type(s2),
        param_type_from_code(type_nibble(pack_types(state_type(s0), state_type(s1), state_type(s2), state_type(s3)), 3)) == state_type(s3),
{
    lemma_pack_unpack(state_type(s0), state_type(s1), state_type(s2), state_type(s3));
}

/// Reading a parameter back keeps its type, leaves inputs as they were, and
/// when it succeeds keeps the parameter well formed: an output buffer never
/// claims more written bytes than it holds.
pub proof fn lemma_update_keeps_shape(s: ParamState, r: RawParam)
    requires
        state_wf(s),
        shares_buffer(s, r),
    ensures
        state_type(updated(s, r)) == state_type(s),
        !update_fails(s, r) ==> state_wf(updated(s, r)),
        (s is Empty || s is MemrefInput || s is ValueInput) ==> updated(s, r) == s,
{
}

/// What an output buffer in state `s` says the callee wrote, as
/// `written_slice` returns it.
pub open spec fn written_part(s: ParamState) -> Option<Seq<u8>> {
    match s {
        ParamState::MemrefOutput { buffer, written } => Some(buffer.take(written as int)),
        ParamState::MemrefInout { buffer, written } => Some(buffer.take(written as int)),
        _ => None,
    }
}

/// An output buffer that was just set has written nothing; once the callee's
/// reply, of at most the buffer's length, is read back, what it wrote is the
/// first `size` bytes of the buffer that came back, exactly that many.
pub proof fn lemma_written_part_of_output(buffer: Seq<u8>, r: RawParam)
    requires
        r.buffer@.len() == buffer.len(),
        r.size <= buffer.len(),
    ensures
        written_part(ParamState::MemrefOutput { buffer, written: 0 }) == Some(Seq::<u8>::empty()),
        written_part(ParamState::MemrefInout { buffer, written: 0 }) == Some(Seq::<u8>::empty()),
        !update_fails(ParamState::MemrefOutput { buffer, written: 0 }, r),
        !update_fails(ParamState::MemrefInout { buffer, written: 0 }, r),
        written_part(updated(ParamState::MemrefOutput { buffer, written: 0 }, r)) == Some(
            r.buffer@.take(r.size as int),
        ),
        written_part(updated(ParamState::MemrefInout { buffer, written: 0 }, r)) == Some(
            r.buffer@.take(r.size as int),
        ),
        r.buffer@.take(r.size as int).len() == r.size,
{
    assert(buffer.take(0) =~= Seq::<u8>::empty());
}

/// Reading back what the TEE returned for parameters as they were handed to
/// it, untouched, changes nothing but the written sizes, which become the
/// whole buffers.
pub proof fn lemma_update_of_own_raw(s: ParamState, r: RawParam)
    requires
        state_wf(s),
        (r.buffer@, r.size, r.a, r.b) == state_raw(s),
        r.buffer@.len() <= usize::MAX,
    ensures
        shares_buffer(s, r),
        !update_fails(s, r),
        match s {
            ParamState::MemrefOutput { buffer, .. } => updated(s, r) == ParamState::MemrefOutput {
                buffer,
                written: buffer.len(),
            },
            ParamState::MemrefInout { buffer, .. } => updated(s, r) == ParamState::MemrefInout {
                buffer,
                written: buffer.len(),
            },
            _ => updated(s, r) == s,
        },
{
}

} // verus!
