//! The four parameters that the TEE hands to a trusted application's entry
//! points, each read according to its type in the packed parameter types.

use vstd::prelude::*;
use crate::error::{Error, ErrorKind, Result, is_kind_error};

verus! {

/// The type of one TEE parameter.
#[derive(Clone, Copy, Debug, PartialEq, Eq, Structural)]
pub enum ParamType {
    Empty,
    ValueInput,
    ValueOutput,
    ValueInout,
    MemrefInput,
    MemrefOutput,
    MemrefInout,
}

/// The code of a parameter type in the packed parameter types.
pub open spec fn param_type_code(t: ParamType) -> u32 {
    match t {
        ParamType::Empty => 0,
        ParamType::ValueInput => 1,
        ParamType::ValueOutput => 2,
        ParamType::ValueInout => 3,
        ParamType::MemrefInput => 5,
        ParamType::MemrefOutput => 6,
        ParamType::MemrefInout => 7,
    }
}

/// The parameter type of a code; codes of no type read as `Empty`.
pub open spec fn param_type_from_code(v: u32) -> ParamType {
    if v == 1 {
        ParamType::ValueInput
    } else if v == 2 {
        ParamType::ValueOutput
    } else if v == 3 {
        ParamType::ValueInout
    } else if v == 5 {
        ParamType::MemrefInput
    } else if v == 6 {
        ParamType::MemrefOutput
    } else if v == 7 {
        ParamType::MemrefInout
    } else {
        ParamType::Empty
    }
}

/// The parameter carries two 32-bit values.
pub open spec fn is_value_type(t: ParamType) -> bool {
    t == ParamType::ValueInput || t == ParamType::ValueOutput || t == ParamType::ValueInout
}

/// The parameter carries a reference to a buffer.
pub open spec fn is_memref_type(t: ParamType) -> bool {
    t == ParamType::MemrefInput || t == ParamType::MemrefOutput || t == ParamType::MemrefInout
}

impl ParamType {
    /// The code of this type.
    pub fn code(&self) -> (v: u32)
        ensures
            v == param_type_code(*self),
    {
        match *self {
            ParamType::Empty => 0,
            ParamType::ValueInput => 1,
            ParamType::ValueOutput => 2,
            ParamType::ValueInout => 3,
            ParamType::MemrefInput => 5,
            ParamType::MemrefOutput => 6,
            ParamType::MemrefInout => 7,
        }
    }

    /// The type of a code; codes of no type give `Empty`.
    pub fn from_code(value: u32) -> (t: ParamType)
        ensures
            t == param_type_from_code(value),
    {
        if value == 1 {
            ParamType::ValueInput
        } else if value == 2 {
            ParamType::ValueOutput
        } else if value == 3 {
            ParamType::ValueInout
        } else if value == 5 {
            ParamType::MemrefInput
        } else if value == 6 {
            ParamType::MemrefOutput
        } else if value == 7 {
            ParamType::MemrefInout
        } else {
            ParamType::Empty
        }
    }
}

/// Each type is the type of its own code.
pub proof fn lemma_param_type_roundtrip(t: ParamType)
    ensures
        param_type_from_code(param_type_code(t)) == t,
        param_type_code(t) < 16,
{
}

/// The four 4-bit parameter types, packed in one word: parameter `i` in bits
/// `4 * i` to `4 * i + 3`.
pub struct ParamTypes(pub u32);

/// The 4-bit field of parameter `i` in packed types.
pub open spec fn type_nibble(packed: u32, i: int) -> u32 {
    if i == 0 {
        packed % 16
    } else if i == 1 {
        (packed / 16) % 16
    } else if i == 2 {
        (packed / 256) % 16
    } else {
        (packed / 4096) % 16
    }
}

/// The packed form of four parameter types.
pub open spec fn pack_types(t0: ParamType, t1: ParamType, t2: ParamType, t3: ParamType) -> u32 {
    (param_type_code(t0) + 16 * param_type_code(t1) + 256 * param_type_code(t2)
        + 4096 * param_type_code(t3)) as u32
}

impl ParamTypes {
    /// Packed types from a word.
    pub fn from_u32(value: u32) -> (t: ParamTypes)
        ensures
            t.0 == value,
    {
        ParamTypes(value)
    }

    /// The types of the four parameters.
    pub fn into_flags(&self) -> (f: (ParamType, ParamType, ParamType, ParamType))
        ensures
            f.0 == param_type_from_code(type_nibble(self.0, 0)),
            f.1 == param_type_from_code(type_nibble(self.0, 1)),
            f.2 == param_type_from_code(type_nibble(self.0, 2)),
            f.3 == param_type_from_code(type_nibble(self.0, 3)),
    {
        let x = self.0;
        let n0 = 0x000fu32 & x;
        let n1 = (0x00f0u32 & x) >> 4;
        let n2 = (0x0f00u32 & x) >> 8;
        let n3 = (0xf000u32 & x) >> 12;
        assert(n0 == x % 16 && n1 == (x / 16) % 16 && n2 == (x / 256) % 16 && n3 == (x / 4096) % 16)
            by (bit_vector)
            requires
                n0 == 0x000fu32 & x,
                n1 == (0x00f0u32 & x) >> 4,
                n2 == (0x0f00u32 & x) >> 8,
                n3 == (0xf000u32 & x) >> 12,
        ;
        (ParamType::from_code(n0), ParamType::from_code(n1), ParamType::from_code(n2), ParamType::from_code(n3))
    }
}

/// Packing four types and reading the packed word gives the four types back.
pub proof fn lemma_pack_unpack(t0: ParamType, t1: ParamType, t2: ParamType, t3: ParamType)
    ensures
        param_type_from_code(type_nibble(pack_types(t0, t1, t2, t3), 0)) == t0,
        param_type_from_code(type_nibble(pack_types(t0, t1, t2, t3), 1)) == t1,
        param_type_from_code(type_nibble(pack_types(t0, t1, t2, t3), 2)) == t2,
        param_type_from_code(type_nibble(pack_types(t0, t1, t2, t3), 3)) == t3,
{
    let c0 = param_type_code(t0);
    let c1 = param_type_code(t1);
    let c2 = param_type_code(t2);
    let c3 = param_type_code(t3);
    let p = pack_types(t0, t1, t2, t3);
    assert(c0 < 16 && c1 < 16 && c2 < 16 && c3 < 16);
    assert(p == c0 + 16 * c1 + 256 * c2 + 4096 * c3);
    assert(p % 16 == c0 && (p / 16) % 16 == c1 && (p / 256) % 16 == c2 && (p / 4096) % 16 == c3)
        by (nonlinear_arith)
        requires
            c0 < 16,
            c1 < 16,
            c2 < 16,
            c3 < 16,
            p == c0 + 16 * c1 + 256 * c2 + 4096 * c3,
    ;
}

/// One parameter as the TEE reads and writes it: the two values of a value
/// parameter, or the shared buffer and its size of a memory reference.
pub struct RawParam {
    pub a: u32,
    pub b: u32,
    pub buffer: Vec<u8>,
    pub size: usize,
}

impl RawParam {
    /// A value parameter.
    pub fn value(a: u32, b: u32) -> (p: RawParam)
        ensures
            p.a == a,
            p.b == b,
            p.buffer@ == Seq::<u8>::empty(),
            p.size == 0,
    {
        RawParam { a, b, buffer: Vec::new(), size: 0 }
    }

    /// A memory reference to `buffer`, of its whole length.
    pub fn memref(buffer: Vec<u8>) -> (p: RawParam)
        ensures
            p.a == 0,
            p.b == 0,
            p.buffer@ == buffer@,
            p.size == buffer@.len(),
    {
        let size = buffer.len();
        RawParam { a: 0, b: 0, buffer, size }
    }
}

/// The two values of a value parameter, borrowed from the parameter: what is
/// set through the view is set in the parameter.
pub struct ParamValue<'p> {
    /// The parameter's raw value, borrowed.
    pub raw: &'p mut RawParam,
    /// The type of the parameter.
    pub param_type: ParamType,
}

impl<'p> ParamValue<'p> {
    pub closed spec fn spec_a(&self) -> u32 {
        self.raw.a
    }

    pub closed spec fn spec_b(&self) -> u32 {
        self.raw.b
    }

    pub closed spec fn spec_param_type(&self) -> ParamType {
        self.param_type
    }

    /// The raw parameter as it is now.
    pub closed spec fn spec_raw(&self) -> RawParam {
        mut_ref_current(self.raw)
    }

    /// The first value.
    pub fn a(&self) -> (v: u32)
        ensures
            v == self.spec_a(),
    {
        self.raw.a
    }

    /// The second value.
    pub fn b(&self) -> (v: u32)
        ensures
            v == self.spec_b(),
    {
        self.raw.b
    }

    /// Sets the first value in the parameter.
    pub fn set_a(&mut self, a: u32)
        ensures
            final(self).spec_a() == a,
            final(self).spec_b() == old(self).spec_b(),
            final(self).spec_param_type() == old(self).spec_param_type(),
            mut_ref_future(final(self).raw) == mut_ref_future(old(self).raw),
            final(self).spec_raw() == (RawParam { a, ..old(self).spec_raw() }),
    {
        self.raw.a = a;
    }

    /// Sets the second value in the parameter.
    pub fn set_b(&mut self, b: u32)
        ensures
            final(self).spec_b() == b,
            final(self).spec_a() == old(self).spec_a(),
            final(self).spec_param_type() == old(self).spec_param_type(),
            mut_ref_future(final(self).raw) == mut_ref_future(old(self).raw),
            final(self).spec_raw() == (RawParam { b, ..old(self).spec_raw() }),
    {
        self.raw.b = b;
    }

    /// The type of the parameter.
    pub fn param_type(&self) -> (t: ParamType)
        ensures
            t == self.spec_param_type(),
    {
        self.param_type
    }
}

/// The buffer of a memory reference parameter, borrowed from the parameter:
/// what is written to it, and the size declared through it, go to the
/// parameter.
pub struct ParamMemref<'p> {
    /// The parameter's raw value, borrowed.
    pub raw: &'p mut RawParam,
    /// The type of the parameter.
    pub param_type: ParamType,
}

impl<'p> ParamMemref<'p> {
    pub closed spec fn spec_buffer(&self) -> Seq<u8> {
        self.raw.buffer@
    }

    pub closed spec fn spec_size(&self) -> usize {
        self.raw.size
    }

    pub closed spec fn spec_param_type(&self) -> ParamType {
        self.param_type
    }

    /// The raw parameter as it is now.
    pub closed spec fn spec_raw(&self) -> RawParam {
        mut_ref_current(self.raw)
    }

    /// The buffer, of the size that the reference declares, to read and
    /// write: what is written goes to the parameter's buffer.
    pub fn buffer(&mut self) -> (b: &mut [u8])
        requires
            old(self).spec_size() <= old(self).spec_buffer().len(),
        ensures
            b@ == old(self).spec_buffer().subrange(0, old(self).spec_size() as int),
            final(self).spec_buffer() == final(b)@ + old(self).spec_buffer().subrange(
                old(self).spec_size() as int,
                old(self).spec_buffer().len() as int,
            ),
            final(self).spec_size() == old(self).spec_size(),
            final(self).spec_raw().a == old(self).spec_raw().a,
            final(self).spec_raw().b == old(self).spec_raw().b,
            final(self).spec_param_type() == old(self).spec_param_type(),
            mut_ref_future(final(self).raw) == mut_ref_future(old(self).raw),
    {
        let size = self.raw.size;
        let s = self.raw.buffer.as_mut_slice();
        let (head, _tail) = s.split_at_mut(size);
        head
    }

    /// The type of the parameter.
    pub fn param_type(&self) -> (t: ParamType)
        ensures
            t == self.spec_param_type(),
    {
        self.param_type
    }

    /// The size that the reference declares.
    pub fn raw(&self) -> (size: usize)
        ensures
            size == self.spec_size(),
    {
        self.raw.size
    }

    /// Declares in the parameter how much of the buffer holds output.
    pub fn set_updated_size(&mut self, size: usize)
        ensures
            final(self).spec_raw() == (RawParam { size, ..old(self).spec_raw() }),
            final(self).spec_param_type() == old(self).spec_param_type(),
            mut_ref_future(final(self).raw) == mut_ref_future(old(self).raw),
    {
        self.raw.size = size;
    }
}

/// One parameter of an entry point, with its type.
pub struct Parameter {
    pub raw: RawParam,
    pub param_type: ParamType,
}

impl Parameter {
    /// The parameter of a raw parameter, read as the given type.
    pub fn from_raw(raw: RawParam, param_type: ParamType) -> (p: Parameter)
        ensures
            p.raw == raw,
            p.param_type == param_type,
    {
        Parameter { raw, param_type }
    }

    /// The values of a value parameter, borrowed so that what is set through
    /// them is set in the parameter; other types are refused and leave the
    /// parameter as it was.
    pub fn as_value(&mut self) -> (r: Result<ParamValue<'_>>)
        ensures
            r is Ok <==> is_value_type(old(self).param_type),
            r matches Ok(v) ==> v.spec_a() == old(self).raw.a && v.spec_b() == old(self).raw.b
                && v.spec_param_type() == old(self).param_type && final(self).raw
                == mut_ref_future(v.raw) && final(self).param_type == old(self).param_type,
            r matches Err(e) ==> is_kind_error(e, ErrorKind::BadParameters) && *final(self)
                == *old(self),
    {
        match self.param_type {
            ParamType::ValueInput | ParamType::ValueInout | ParamType::ValueOutput => {
                let param_type = self.param_type;
                Ok(ParamValue { raw: &mut self.raw, param_type })
            },
            _ => Err(Error::new(ErrorKind::BadParameters)),
        }
    }

    /// The buffer of a memory reference parameter, borrowed so that what is
    /// written through it is written to the parameter; other types are
    /// refused and leave the parameter as it was.
    pub fn as_memref(&mut self) -> (r: Result<ParamMemref<'_>>)
        ensures
            r is Ok <==> is_memref_type(old(self).param_type),
            r matches Ok(m) ==> m.spec_raw() == old(self).raw && m.spec_param_type()
                == old(self).param_type && final(self).raw == mut_ref_future(m.raw)
                && final(self).param_type == old(self).param_type,
            r matches Err(e) ==> is_kind_error(e, ErrorKind::BadParameters) && *final(self)
                == *old(self),
    {
        match self.param_type {
            ParamType::MemrefInout | ParamType::MemrefInput | ParamType::MemrefOutput => {
                let param_type = self.param_type;
                Ok(ParamMemref { raw: &mut self.raw, param_type })
            },
            _ => Err(Error::new(ErrorKind::BadParameters)),
        }
    }

    /// The raw parameter.
    pub fn raw(&self) -> (r: &RawParam)
        ensures
            *r == self.raw,
    {
        &self.raw
    }
}

/// The four parameters of an entry point.
pub struct Parameters(pub Parameter, pub Parameter, pub Parameter, pub Parameter);

impl Parameters {
    /// The parameters of the four raw parameters, each read as its type in
    /// the packed `param_types`.
    pub fn from_raw(tee_params: Vec<RawParam>, param_types: u32) -> (p: Parameters)
        requires
            tee_params@.len() == 4,
        ensures
            p.0.raw == tee_params@[0] && p.0.param_type == param_type_from_code(type_nibble(param_types, 0)),
            p.1.raw == tee_params@[1] && p.1.param_type == param_type_from_code(type_nibble(param_types, 1)),
            p.2.raw == tee_params@[2] && p.2.param_type == param_type_from_code(type_nibble(param_types, 2)),
            p.3.raw == tee_params@[3] && p.3.param_type == param_type_from_code(type_nibble(param_types, 3)),
    {
        let ghost orig = tee_params@;
        let (f0, f1, f2, f3) = ParamTypes::from_u32(param_types).into_flags();
        let mut tee_params = tee_params;
        let r3 = tee_params.pop().unwrap();
        let r2 = tee_params.pop().unwrap();
        let r1 = tee_params.pop().unwrap();
        let r0 = tee_params.pop().unwrap();
        Parameters(
            Parameter::from_raw(r0, f0),
            Parameter::from_raw(r1, f1),
            Parameter::from_raw(r2, f2),
            Parameter::from_raw(r3, f3),
        )
    }

    /// The four raw parameters, as the entry point's function left them, to
    /// be handed back to the TEE.
    pub fn into_raw(self) -> (r: Vec<RawParam>)
        ensures
            r@ == seq![self.0.raw, self.1.raw, self.2.raw, self.3.raw],
    {
        let Parameters(p0, p1, p2, p3) = self;
        let mut r: Vec<RawParam> = Vec::new();
        r.push(p0.raw);
        r.push(p1.raw);
        r.push(p2.raw);
        r.push(p3.raw);
        r
    }
}

} // verus!
