//! UUIDs (RFC 4122), which name trusted applications: built from raw
//! fields or big-endian bytes, parsed with the `uuid` crate, and written in
//! the hyphenated lower-case form.

use vstd::prelude::*;
use crate::text::{hex_bytes, hex_char, push_char, push_hex_bytes};

verus! {

/// Why a UUID could not be read.
#[derive(Clone, Copy, Debug, PartialEq, Eq, Structural)]
pub enum UuidError {
    /// The string is no UUID in any form that the `uuid` crate reads.
    InvalidString,
    /// The byte slice does not hold 16 bytes; it holds this many.
    InvalidLength(usize),
}

/// The 16 bytes that `uuid::Uuid::parse_str` reads from a string, or `None`
/// where it refuses the string.
pub uninterp spec fn uuid_crate_parse(input: Seq<char>) -> Option<Seq<u8>>;

/// The hyphenated form of 16 bytes: lower-case hexadecimal digits in groups
/// of 4, 2, 2, 2 and 6 bytes, with a hyphen between groups.
pub open spec fn hyphenated(b: Seq<u8>) -> Seq<char> {
    hex_bytes(b.subrange(0, 4)) + seq!['-'] + hex_bytes(b.subrange(4, 6)) + seq!['-']
        + hex_bytes(b.subrange(6, 8)) + seq!['-'] + hex_bytes(b.subrange(8, 10)) + seq!['-']
        + hex_bytes(b.subrange(10, 16))
}

/// `s` is the hyphenated form of some 16 bytes.
pub open spec fn is_hyphenated(s: Seq<char>) -> bool {
    exists|b: Seq<u8>| b.len() == 16 && s == hyphenated(b)
}

/// `s` is the simple form of some 16 bytes: their 32 lower-case
/// hexadecimal digits.
pub open spec fn is_simple(s: Seq<char>) -> bool {
    exists|b: Seq<u8>| b.len() == 16 && s == hex_bytes(b)
}

/// Calls `uuid::Uuid::parse_str` and takes the bytes of the UUID it gives.
/// Believed of it: it succeeds exactly where `uuid_crate_parse` names bytes,
/// and then gives those (its error is dropped); it refuses every string that
/// is not 32, 36, 38 or 45 characters long (its `try_parse` matches on the
/// length first, and what it accepts is ASCII); it reads the simple form of
/// any 16 bytes, 32 lower-case hexadecimal digits, as those bytes
/// (`parse_simple`); and it reads the hyphenated lower-case form of any 16
/// bytes as those bytes (`parse_hyphenated` decodes the 32 hex digits around
/// the four hyphens). Which braced and URN forms it accepts is left to the
/// name.
#[verifier::external_body]
fn uuid_parse_bytes(input: &str) -> (r: Option<[u8; 16]>)
    ensures
        r is Some <==> uuid_crate_parse(input@) is Some,
        r matches Some(b) ==> b@ == uuid_crate_parse(input@).unwrap(),
        r is Some ==> (input@.len() == 32 || input@.len() == 36 || input@.len() == 38
            || input@.len() == 45),
        r is Some || !is_simple(input@),
        r matches Some(x) ==> (is_simple(input@) ==> input@ == hex_bytes(x@)),
        r is Some || !is_hyphenated(input@),
        r matches Some(x) ==> (is_hyphenated(input@) ==> input@ == hyphenated(x@)),
{
    match ::uuid::Uuid::parse_str(input) {
        Ok(u) => Some(*u.as_bytes()),
        Err(_) => None,
    }
}

/// Calls `uuid::Uuid::from_slice` and takes the bytes of the UUID it gives.
/// Believed of it, as its source shows: it fails exactly when the slice is not
/// 16 bytes long, and otherwise copies the slice (its error is dropped).
#[verifier::external_body]
fn uuid_bytes_from_slice(b: &[u8]) -> (r: Option<[u8; 16]>)
    ensures
        r is Some <==> b@.len() == 16,
        r matches Some(x) ==> x@ == b@,
{
    match ::uuid::Uuid::from_slice(b) {
        Ok(u) => Some(*u.as_bytes()),
        Err(_) => None,
    }
}

/// Calls `hex::encode`, which writes two lower-case hexadecimal digits for
/// each byte, the high digit first (its table is `0123456789abcdef`).
#[verifier::external_body]
fn hex_encode(data: &[u8]) -> (s: String)
    ensures
        s@ == hex_bytes(data@),
{
    hex::encode(data)
}

/// The big-endian bytes of a 32-bit value.
pub open spec fn be_u32_bytes(v: u32) -> Seq<u8> {
    seq![(v / 0x100_0000) as u8, ((v / 0x1_0000) % 256) as u8, ((v / 256) % 256) as u8, (v % 256) as u8]
}

/// The big-endian bytes of a 16-bit value.
pub open spec fn be_u16_bytes(v: u16) -> Seq<u8> {
    seq![(v / 256) as u8, (v % 256) as u8]
}

/// A UUID as the TEE's `TEE_UUID` holds it: three fields and eight bytes.
#[derive(Clone, Copy, Debug)]
pub struct TeeUuid {
    pub time_low: u32,
    pub time_mid: u16,
    pub time_hi_and_version: u16,
    pub clock_seq_and_node: [u8; 8],
}

/// The bytes of four big-endian bytes read as a 32-bit value and written
/// back are those bytes; so for two bytes and 16 bits.
pub proof fn lemma_be_bytes(b0: u8, b1: u8, b2: u8, b3: u8)
    ensures
        be_u32_bytes((b0 * 0x100_0000 + b1 * 0x1_0000 + b2 * 256 + b3) as u32) == seq![b0, b1, b2, b3],
        be_u16_bytes((b0 * 256 + b1) as u16) == seq![b0, b1],
{
    let v = (b0 * 0x100_0000 + b1 * 0x1_0000 + b2 * 256 + b3) as u32;
    assert(v == b0 * 0x100_0000 + b1 * 0x1_0000 + b2 * 256 + b3) by (nonlinear_arith)
        requires
            b0 < 256,
            b1 < 256,
            b2 < 256,
            b3 < 256,
            v == (b0 * 0x100_0000 + b1 * 0x1_0000 + b2 * 256 + b3) as u32,
    ;
    assert(v / 0x100_0000 == b0 && (v / 0x1_0000) % 256 == b1 && (v / 256) % 256 == b2 && v % 256 == b3)
        by (nonlinear_arith)
        requires
            b0 < 256,
            b1 < 256,
            b2 < 256,
            b3 < 256,
            v == b0 * 0x100_0000 + b1 * 0x1_0000 + b2 * 256 + b3,
    ;
    assert(be_u32_bytes(v) =~= seq![b0, b1, b2, b3]);
    let w = (b0 * 256 + b1) as u16;
    assert(w / 256 == b0 && w % 256 == b1) by (nonlinear_arith)
        requires
            b0 < 256,
            b1 < 256,
            w == (b0 * 256 + b1) as u16,
    ;
    assert(be_u16_bytes(w) =~= seq![b0, b1]);
}

/// A Universally Unique Identifier, held as its 16 big-endian bytes.
#[derive(Clone, Copy)]
pub struct Uuid {
    bytes: [u8; 16],
}

impl View for Uuid {
    type V = Seq<u8>;

    closed spec fn view(&self) -> Seq<u8> {
        self.bytes@
    }
}

impl Uuid {
    /// A UUID is always 16 bytes long.
    pub proof fn lemma_len(&self)
        ensures
            self@.len() == 16,
    {
    }

    /// Parses a UUID from a string, as the `uuid` crate reads it: fails
    /// exactly where that crate refuses the string.
    pub fn parse_str(input: &str) -> (r: core::result::Result<Uuid, UuidError>)
        ensures
            r is Ok <==> uuid_crate_parse(input@) is Some,
            r matches Ok(u) ==> u@ == uuid_crate_parse(input@).unwrap(),
            r matches Err(e) ==> e == UuidError::InvalidString,
            is_hyphenated(input@) ==> (r matches Ok(u) && input@ == hyphenated(u@)),
            is_simple(input@) ==> (r matches Ok(u) && input@ == hex_bytes(u@)),
            !(input@.len() == 32 || input@.len() == 36 || input@.len() == 38 || input@.len() == 45)
                ==> r == Err::<Uuid, UuidError>(UuidError::InvalidString),
    {
        match uuid_parse_bytes(input) {
            Some(bytes) => Ok(Uuid { bytes }),
            None => Err(UuidError::InvalidString),
        }
    }

    /// The UUID of the given big-endian bytes.
    pub fn from_bytes(bytes: [u8; 16]) -> (u: Uuid)
        ensures
            u@ == bytes@,
    {
        Uuid { bytes }
    }

    /// The UUID of the given big-endian bytes; fails unless there are 16.
    pub fn from_slice(b: &[u8]) -> (r: core::result::Result<Uuid, UuidError>)
        ensures
            r is Ok <==> b@.len() == 16,
            r matches Ok(u) ==> u@ == b@,
            r matches Err(e) ==> e == UuidError::InvalidLength(b@.len() as usize),
    {
        match uuid_bytes_from_slice(b) {
            Some(bytes) => Ok(Uuid { bytes }),
            None => Err(UuidError::InvalidLength(b.len())),
        }
    }

    /// The UUID with the given fields, as the TEE's `TEE_UUID` holds them.
    pub fn new_raw(time_low: u32, time_mid: u16, time_hi_and_version: u16, clock_seq_and_nod: [u8; 8]) -> (u: Uuid)
        ensures
            u@ == be_u32_bytes(time_low) + be_u16_bytes(time_mid) + be_u16_bytes(time_hi_and_version)
                + clock_seq_and_nod@,
    {
        let bytes: [u8; 16] = [
            (time_low / 0x100_0000) as u8,
            ((time_low / 0x1_0000) % 256) as u8,
            ((time_low / 256) % 256) as u8,
            (time_low % 256) as u8,
            (time_mid / 256) as u8,
            (time_mid % 256) as u8,
            (time_hi_and_version / 256) as u8,
            (time_hi_and_version % 256) as u8,
            clock_seq_and_nod[0],
            clock_seq_and_nod[1],
            clock_seq_and_nod[2],
            clock_seq_and_nod[3],
            clock_seq_and_nod[4],
            clock_seq_and_nod[5],
            clock_seq_and_nod[6],
            clock_seq_and_nod[7],
        ];
        let u = Uuid { bytes };
        assert(u@ =~= be_u32_bytes(time_low) + be_u16_bytes(time_mid) + be_u16_bytes(time_hi_and_version)
            + clock_seq_and_nod@);
        u
    }

    /// The first field: the first four bytes, big-endian.
    pub fn time_low(&self) -> (v: u32)
        ensures
            v == self@[0] * 0x100_0000 + self@[1] * 0x1_0000 + self@[2] * 256 + self@[3],
    {
        (self.bytes[0] as u32) * 0x100_0000 + (self.bytes[1] as u32) * 0x1_0000
            + (self.bytes[2] as u32) * 256 + (self.bytes[3] as u32)
    }

    /// The second field: bytes 4 and 5, big-endian.
    pub fn time_mid(&self) -> (v: u16)
        ensures
            v == self@[4] * 256 + self@[5],
    {
        (self.bytes[4] as u16) * 256 + (self.bytes[5] as u16)
    }

    /// The third field: bytes 6 and 7, big-endian.
    pub fn time_hi_and_version(&self) -> (v: u16)
        ensures
            v == self@[6] * 256 + self@[7],
    {
        (self.bytes[6] as u16) * 256 + (self.bytes[7] as u16)
    }

    /// The last eight bytes.
    pub fn clock_seq_and_node(&self) -> (v: [u8; 8])
        ensures
            v@ == self@.subrange(8, 16),
    {
        let b = self.bytes;
        let v: [u8; 8] = [b[8], b[9], b[10], b[11], b[12], b[13], b[14], b[15]];
        assert(v@ =~= self@.subrange(8, 16));
        v
    }

    /// The UUID as the TEE holds it.
    pub fn as_raw_ptr(&self) -> (r: TeeUuid)
        ensures
            r.time_low == self@[0] * 0x100_0000 + self@[1] * 0x1_0000 + self@[2] * 256 + self@[3],
            r.time_mid == self@[4] * 256 + self@[5],
            r.time_hi_and_version == self@[6] * 256 + self@[7],
            r.clock_seq_and_node@ == self@.subrange(8, 16),
    {
        TeeUuid {
            time_low: self.time_low(),
            time_mid: self.time_mid(),
            time_hi_and_version: self.time_hi_and_version(),
            clock_seq_and_node: self.clock_seq_and_node(),
        }
    }

    /// The UUID of the TEE's `TEE_UUID`.
    pub fn from_raw(raw: TeeUuid) -> (u: Uuid)
        ensures
            u@ == be_u32_bytes(raw.time_low) + be_u16_bytes(raw.time_mid) + be_u16_bytes(
                raw.time_hi_and_version,
            ) + raw.clock_seq_and_node@,
    {
        Self::new_raw(raw.time_low, raw.time_mid, raw.time_hi_and_version, raw.clock_seq_and_node)
    }

    /// The hyphenated lower-case form, as in
    /// `8abcf200-2450-11e4-abe2-0002a5d5c51b`.
    pub fn to_string(&self) -> (s: String)
        ensures
            s@ == hyphenated(self@),
    {
        let b = self.bytes;
        let mut s = String::new();
        let head: [u8; 8] = [b[0], b[1], b[2], b[3], b[4], b[5], b[6], b[7]];
        let clock: [u8; 8] = [b[8], b[9], b[10], b[11], b[12], b[13], b[14], b[15]];
        let a: [u8; 4] = [b[0], b[1], b[2], b[3]];
        let m: [u8; 2] = [b[4], b[5]];
        let h: [u8; 2] = [b[6], b[7]];
        push_hex_bytes(&mut s, &a);
        push_char(&mut s, '-');
        push_hex_bytes(&mut s, &m);
        push_char(&mut s, '-');
        push_hex_bytes(&mut s, &h);
        push_char(&mut s, '-');
        let c0: [u8; 2] = [clock[0], clock[1]];
        let c1: [u8; 6] = [clock[2], clock[3], clock[4], clock[5], clock[6], clock[7]];
        let e0 = hex_encode(&c0);
        s.append(e0.as_str());
        push_char(&mut s, '-');
        let e1 = hex_encode(&c1);
        s.append(e1.as_str());
        assert(a@ =~= self@.subrange(0, 4));
        assert(m@ =~= self@.subrange(4, 6));
        assert(h@ =~= self@.subrange(6, 8));
        assert(c0@ =~= self@.subrange(8, 10));
        assert(c1@ =~= self@.subrange(10, 16));
        assert(s@ =~= hyphenated(self@));
        s
    }
}

/// Distinct digits are distinct characters.
proof fn lemma_hex_char_injective(a: u8, b: u8)
    requires
        a < 16,
        b < 16,
        hex_char(a, false) == hex_char(b, false),
    ensures
        a == b,
{
    let ca = hex_char(a, false);
    let cb = hex_char(b, false);
    assert(ca as u32 == cb as u32);
}

/// Distinct byte strings of the same length have distinct hex forms.
proof fn lemma_hex_bytes_injective(x: Seq<u8>, y: Seq<u8>)
    requires
        x.len() == y.len(),
        hex_bytes(x) == hex_bytes(y),
    ensures
        x == y,
{
    assert forall|i: int| 0 <= i < x.len() implies x[i] == y[i] by {
        let j = 2 * i;
        let k = 2 * i + 1;
        assert(j / 2 == i && j % 2 == 0);
        assert(k / 2 == i && k % 2 == 1);
        assert(hex_bytes(x)[j] == hex_char(x[i] / 16, false));
        assert(hex_bytes(y)[j] == hex_char(y[i] / 16, false));
        assert(hex_bytes(x)[k] == hex_char(x[i] % 16, false));
        assert(hex_bytes(y)[k] == hex_char(y[i] % 16, false));
        lemma_hex_char_injective(x[i] / 16, y[i] / 16);
        lemma_hex_char_injective(x[i] % 16, y[i] % 16);
    }
    assert(x =~= y);
}

/// The hyphenated form tells the bytes apart: two 16-byte strings with the
/// same form are the same.
pub proof fn lemma_hyphenated_injective(x: Seq<u8>, y: Seq<u8>)
    requires
        x.len() == 16,
        y.len() == 16,
        hyphenated(x) == hyphenated(y),
    ensures
        x == y,
{
    let hx = hyphenated(x);
    let hy = hyphenated(y);
    assert(hx.subrange(0, 8) =~= hex_bytes(x.subrange(0, 4)));
    assert(hy.subrange(0, 8) =~= hex_bytes(y.subrange(0, 4)));
    assert(hx.subrange(9, 13) =~= hex_bytes(x.subrange(4, 6)));
    assert(hy.subrange(9, 13) =~= hex_bytes(y.subrange(4, 6)));
    assert(hx.subrange(14, 18) =~= hex_bytes(x.subrange(6, 8)));
    assert(hy.subrange(14, 18) =~= hex_bytes(y.subrange(6, 8)));
    assert(hx.subrange(19, 23) =~= hex_bytes(x.subrange(8, 10)));
    assert(hy.subrange(19, 23) =~= hex_bytes(y.subrange(8, 10)));
    assert(hx.subrange(24, 36) =~= hex_bytes(x.subrange(10, 16)));
    assert(hy.subrange(24, 36) =~= hex_bytes(y.subrange(10, 16)));
    lemma_hex_bytes_injective(x.subrange(0, 4), y.subrange(0, 4));
    lemma_hex_bytes_injective(x.subrange(4, 6), y.subrange(4, 6));
    lemma_hex_bytes_injective(x.subrange(6, 8), y.subrange(6, 8));
    lemma_hex_bytes_injective(x.subrange(8, 10), y.subrange(8, 10));
    lemma_hex_bytes_injective(x.subrange(10, 16), y.subrange(10, 16));
    assert forall|k: int| 0 <= k < 16 implies x[k] == y[k] by {
        if k < 4 {
            assert(x[k] == x.subrange(0, 4)[k] && y[k] == y.subrange(0, 4)[k]);
        } else if k < 6 {
            assert(x[k] == x.subrange(4, 6)[k - 4] && y[k] == y.subrange(4, 6)[k - 4]);
        } else if k < 8 {
            assert(x[k] == x.subrange(6, 8)[k - 6] && y[k] == y.subrange(6, 8)[k - 6]);
        } else if k < 10 {
            assert(x[k] == x.subrange(8, 10)[k - 8] && y[k] == y.subrange(8, 10)[k - 8]);
        } else {
            assert(x[k] == x.subrange(10, 16)[k - 10] && y[k] == y.subrange(10, 16)[k - 10]);
        }
    }
    assert(x =~= y);
}

/// Writing a UUID and parsing what was written gives the same UUID back.
pub proof fn lemma_to_string_parse_roundtrip(u: Uuid, r: core::result::Result<Uuid, UuidError>)
    requires
        is_hyphenated(hyphenated(u@)) ==> (r matches Ok(x) && hyphenated(u@) == hyphenated(x@)),
    ensures
        r matches Ok(x) && x@ == u@,
{
    u.lemma_len();
    assert(is_hyphenated(hyphenated(u@)));
    if let Ok(x) = r {
        x.lemma_len();
        lemma_hyphenated_injective(x@, u@);
    }
}

/// A UUID handed to the TEE and read back is the same UUID.
pub proof fn lemma_raw_roundtrip(u: Uuid, raw: TeeUuid, back: Uuid)
    requires
        raw.time_low == u@[0] * 0x100_0000 + u@[1] * 0x1_0000 + u@[2] * 256 + u@[3],
        raw.time_mid == u@[4] * 256 + u@[5],
        raw.time_hi_and_version == u@[6] * 256 + u@[7],
        raw.clock_seq_and_node@ == u@.subrange(8, 16),
        back@ == be_u32_bytes(raw.time_low) + be_u16_bytes(raw.time_mid) + be_u16_bytes(
            raw.time_hi_and_version,
        ) + raw.clock_seq_and_node@,
    ensures
        back@ == u@,
{
    u.lemma_len();
    lemma_be_bytes(u@[0], u@[1], u@[2], u@[3]);
    lemma_be_bytes(u@[4], u@[5], 0, 0);
    lemma_be_bytes(u@[6], u@[7], 0, 0);
    assert(back@ =~= u@);
}

} // verus!
