//! Big integers of the TEE's arithmetical interface: the buffers that hold
//! them, how large each result must be, and how the TEE's conversions are
//! read back.

use vstd::prelude::*;
use crate::defines::TEE_SUCCESS;
use crate::error::{Error, Result, is_code_error};

verus! {

/// The number of 32-bit words of a big integer of `bits` bits: its
/// magnitude and a header of two words.
pub open spec fn words_for_bits(bits: u32) -> int {
    (bits + 31) / 32 + 2
}

/// A big integer, held in the words that the TEE reads and writes.
pub struct BigInt {
    data: Vec<u32>,
}

impl BigInt {
    pub closed spec fn spec_data(&self) -> Seq<u32> {
        self.data@
    }

    /// The number of words of a big integer of `size` bits.
    pub fn size_in_u32(size: u32) -> (n: u32)
        requires
            size + 31 <= u32::MAX,
        ensures
            n == words_for_bits(size),
    {
        ((size + 31) / 32) + 2
    }

    /// A big integer of `bits` bits, all its words zero, ready for the TEE
    /// to initialize.
    pub fn new(bits: u32) -> (b: BigInt)
        requires
            bits + 31 <= u32::MAX,
        ensures
            b.spec_data().len() == words_for_bits(bits),
            forall|i: int| 0 <= i < b.spec_data().len() ==> b.spec_data()[i] == 0,
    {
        let size = Self::size_in_u32(bits) as usize;
        let mut data: Vec<u32> = Vec::new();
        let mut i: usize = 0;
        while i < size
            invariant
                i <= size,
                data@.len() == i,
                forall|k: int| 0 <= k < i ==> data@[k] == 0,
            decreases size - i,
        {
            data.push(0);
            i = i + 1;
        }
        BigInt { data }
    }

    /// The words.
    pub fn data_ptr(&self) -> (d: &[u32])
        ensures
            d@ == self.spec_data(),
    {
        self.data.as_slice()
    }

    /// The words, for the TEE to write.
    pub fn data_mut(&mut self) -> (d: &mut Vec<u32>)
        ensures
            d@ == old(self).spec_data(),
            final(self).spec_data() == final(d)@,
    {
        &mut self.data
    }

    /// The size of the buffer that the octet string of the integer is
    /// written to: four bytes for each word of its magnitude.
    pub fn octet_buffer_size(&self) -> (n: usize)
        requires
            self.spec_data().len() >= 2,
            (self.spec_data().len() - 2) * 4 <= usize::MAX,
        ensures
            n == (self.spec_data().len() - 2) * 4,
    {
        (self.data.len() - 2) * 4
    }

    /// The octet string that the conversion wrote into `buffer`, with
    /// `status` and the size it reported: the error of the status unless it
    /// is success, else the first `size` bytes of the buffer.
    pub fn octets_from_reply(status: u32, buffer: Vec<u8>, size: usize) -> (r: Result<Vec<u8>>)
        ensures
            status != TEE_SUCCESS ==> (r matches Err(e) && is_code_error(e, status)),
            status == TEE_SUCCESS ==> (r matches Ok(v) && v@ == (if size <= buffer@.len() {
                buffer@.take(size as int)
            } else {
                buffer@
            })),
    {
        if status == TEE_SUCCESS {
            let mut v = buffer;
            v.truncate(size);
            Ok(v)
        } else {
            Err(Error::from_raw_error(status))
        }
    }

    /// The integer that the conversion to 32 bits returned with `status`.
    pub fn s32_from_reply(status: u32, value: i32) -> (r: Result<i32>)
        ensures
            status == TEE_SUCCESS ==> r == Ok::<i32, Error>(value),
            status != TEE_SUCCESS ==> (r matches Err(e) && is_code_error(e, status)),
    {
        crate::error::value_on_success(status, value)
    }

    /// The size in bits of a sum or difference of integers of `bits1` and
    /// `bits2` bits: one more than the larger.
    pub fn sum_bits(bits1: u32, bits2: u32) -> (n: u32)
        requires
            bits1 < u32::MAX,
            bits2 < u32::MAX,
        ensures
            n == (if bits1 >= bits2 { bits1 } else { bits2 }) + 1,
    {
        let m = if bits1 >= bits2 { bits1 } else { bits2 };
        m + 1
    }

    /// The size in bits of a product of integers of `bits1` and `bits2` bits.
    pub fn product_bits(bits1: u32, bits2: u32) -> (n: u32)
        requires
            bits1 + bits2 <= u32::MAX,
        ensures
            n == bits1 + bits2,
    {
        bits1 + bits2
    }

    /// The size in bits of the square of an integer of `bits` bits.
    pub fn square_bits(bits: u32) -> (n: u32)
        requires
            2 * bits <= u32::MAX,
        ensures
            n == 2 * bits,
    {
        2 * bits
    }

    /// The size in bits of the quotient of integers of `bits1` and `bits2`
    /// bits, where `cmp` compares the dividend with the divisor: when the
    /// dividend is not smaller, the difference of the sizes and at least one
    /// bit, else none.
    pub fn quotient_bits(cmp: i32, bits1: u32, bits2: u32) -> (n: u32)
        ensures
            cmp >= 0 ==> n == (if bits1 > bits2 { bits1 - bits2 } else { 1 }),
            cmp < 0 ==> n == 0,
    {
        if cmp >= 0 {
            if bits1 > bits2 {
                bits1 - bits2
            } else {
                1
            }
        } else {
            0
        }
    }
}

/// The context of fast modular multiplication, held in the words that the
/// TEE reads and writes.
pub struct BigIntFMMContext {
    data: Vec<u32>,
}

impl BigIntFMMContext {
    pub closed spec fn spec_data(&self) -> Seq<u32> {
        self.data@
    }

    /// A context of `size` words, all zero, ready for the TEE to initialize.
    pub fn with_size_in_u32(size: usize) -> (c: BigIntFMMContext)
        ensures
            c.spec_data() == Seq::new(size as nat, |i: int| 0u32),
    {
        let mut data: Vec<u32> = Vec::new();
        let mut i: usize = 0;
        while i < size
            invariant
                i <= size,
                data@ == Seq::new(i as nat, |k: int| 0u32),
            decreases size - i,
        {
            data.push(0);
            i = i + 1;
        }
        BigIntFMMContext { data }
    }

    /// The words.
    pub fn data_ptr(&self) -> (d: &[u32])
        ensures
            d@ == self.spec_data(),
    {
        self.data.as_slice()
    }
}

/// An integer in the representation of fast modular multiplication, held
/// in the words that the TEE reads and writes.
pub struct BigIntFMM {
    data: Vec<u32>,
}

impl BigIntFMM {
    pub closed spec fn spec_data(&self) -> Seq<u32> {
        self.data@
    }

    /// An integer of `size` words, all zero, ready for the TEE to
    /// initialize.
    pub fn with_size_in_u32(size: usize) -> (c: BigIntFMM)
        ensures
            c.spec_data() == Seq::new(size as nat, |i: int| 0u32),
    {
        let mut data: Vec<u32> = Vec::new();
        let mut i: usize = 0;
        while i < size
            invariant
                i <= size,
                data@ == Seq::new(i as nat, |k: int| 0u32),
            decreases size - i,
        {
            data.push(0);
            i = i + 1;
        }
        BigIntFMM { data }
    }

    /// The words.
    pub fn data_ptr(&self) -> (d: &[u32])
        ensures
            d@ == self.spec_data(),
    {
        self.data.as_slice()
    }
}

} // verus!
