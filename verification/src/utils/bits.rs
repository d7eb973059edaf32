//! The bit cursor: bit-addressable, read-only access to a byte buffer, and
//! the variable-length integer codes layered on top of it.

use vstd::prelude::*;
use vstd::arithmetic::div_mod::{
    lemma_breakdown, lemma_div_denominator, lemma_fundamental_div_mod,
    lemma_fundamental_div_mod_converse, lemma_multiply_divide_lt,
};
use vstd::arithmetic::power2::{lemma2_to64, lemma2_to64_rest, lemma_pow2_pos, lemma_pow2_unfold, pow2};
use vstd::bits::lemma_u8_shr_is_div;

use crate::utils::math::{floor_log2, floor_log2_spec};

verus! {

/// The bit of byte `b` at offset `off`, counting the most significant bit
/// as offset 0 and the least significant as offset 7.
pub open spec fn byte_bit(b: u8, off: int) -> bool
    recommends
        0 <= off < 8,
{
    (b as nat / pow2((7 - off) as nat)) % 2 == 1
}

/// Bit `i` of a byte sequence, bits numbered most-significant-first within
/// each byte, eight per byte.
pub open spec fn bit_at(data: Seq<u8>, i: int) -> bool
    recommends
        0 <= i < data.len() * 8,
{
    byte_bit(data[i / 8], i % 8)
}

/// The unsigned integer held by `count` bits starting at bit `start`,
/// read most-significant-bit first.
pub open spec fn bits_value(data: Seq<u8>, start: int, count: int) -> nat
    decreases count,
{
    if count <= 0 {
        0
    } else {
        2 * bits_value(data, start, count - 1) + (if bit_at(data, start + count - 1) {
            1nat
        } else {
            0nat
        })
    }
}

/// A `count`-bit field always decodes to a value below `pow2(count)`.
pub proof fn lemma_bits_value_bound(data: Seq<u8>, start: int, count: int)
    requires
        count >= 0,
    ensures
        bits_value(data, start, count) < pow2(count as nat),
    decreases count,
{
    if count == 0 {
        lemma2_to64();
    } else {
        lemma_bits_value_bound(data, start, count - 1);
        lemma_pow2_unfold(count as nat);
    }
}

/// Splitting a bit span in two: the whole span's value is the first part,
/// shifted up past the second part, plus the second part.
pub proof fn lemma_bits_value_concat(data: Seq<u8>, start: int, c1: int, c2: int)
    requires
        c1 >= 0,
        c2 >= 0,
    ensures
        bits_value(data, start, c1 + c2) == bits_value(data, start, c1) * pow2(c2 as nat)
            + bits_value(data, start + c1, c2),
    decreases c2,
{
    if c2 == 0 {
        lemma2_to64();
    } else {
        lemma_bits_value_concat(data, start, c1, c2 - 1);
        lemma_pow2_unfold(c2 as nat);
        let v1 = bits_value(data, start, c1);
        let p = pow2((c2 - 1) as nat);
        assert(2 * (v1 * p) == v1 * (2 * p)) by (nonlinear_arith);
    }
}

/// The value of a bit span depends only on the bits it covers.
pub proof fn lemma_bits_value_agree(d1: Seq<u8>, d2: Seq<u8>, start: int, count: int)
    requires
        count >= 0,
        forall|i: int| start <= i < start + count ==> #[trigger] bit_at(d1, i) == bit_at(d2, i),
    ensures
        bits_value(d1, start, count) == bits_value(d2, start, count),
    decreases count,
{
    if count > 0 {
        lemma_bits_value_agree(d1, d2, start, count - 1);
    }
}

/// A span inside one byte is that byte shifted down past the trailing bits,
/// keeping the low `cnt` bits: the usual shift-and-mask extraction.
pub proof fn lemma_bits_value_in_byte(data: Seq<u8>, j: int, off: int, cnt: int)
    requires
        0 <= j < data.len(),
        0 <= off,
        0 <= cnt,
        off + cnt <= 8,
    ensures
        bits_value(data, 8 * j + off, cnt) == (data[j] as nat / pow2((8 - off - cnt) as nat)) % pow2(
            cnt as nat,
        ),
    decreases cnt,
{
    let b = data[j];
    if cnt == 0 {
        lemma2_to64();
    } else {
        lemma_bits_value_in_byte(data, j, off, cnt - 1);
        let s = 8 - off - cnt;
        let i = 8 * j + off + cnt - 1;
        lemma_fundamental_div_mod_converse(i, 8, j, off + cnt - 1);
        assert(bit_at(data, i) == ((b as nat / pow2(s as nat)) % 2 == 1));
        let y = b as nat / pow2(s as nat);
        lemma_pow2_pos(s as nat);
        lemma_pow2_unfold((s + 1) as nat);
        lemma_div_denominator(b as int, pow2(s as nat) as int, 2);
        assert(b as nat / pow2((s + 1) as nat) == y / 2);
        lemma_pow2_pos((cnt - 1) as nat);
        lemma_pow2_unfold(cnt as nat);
        lemma_breakdown(y as int, 2, pow2((cnt - 1) as nat) as int);
        assert(y % pow2(cnt as nat) == 2 * ((y / 2) % pow2((cnt - 1) as nat)) + y % 2);
    }
}

/// Number of zero bits standing before the first one bit at or after
/// `start`, looking at no more than `fuel` bits.
pub open spec fn leading_zeros(data: Seq<u8>, start: int, fuel: int) -> int
    decreases fuel,
{
    if fuel <= 0 {
        0
    } else if bit_at(data, start) {
        0
    } else {
        1 + leading_zeros(data, start + 1, fuel - 1)
    }
}

/// The zero-run scan never needs more than `fuel` bits.
pub proof fn lemma_leading_zeros_bound(data: Seq<u8>, start: int, fuel: int)
    ensures
        0 <= leading_zeros(data, start, fuel),
        leading_zeros(data, start, fuel) <= (if fuel >= 0 {
            fuel
        } else {
            0
        }),
    decreases fuel,
{
    if fuel > 0 && !bit_at(data, start) {
        lemma_leading_zeros_bound(data, start + 1, fuel - 1);
    }
}

/// Whether the zero-run scan of the exponential code stays inside the
/// buffer: it stops at a one bit, or after `fuel` zeros, before running out.
pub open spec fn uvlc_scan_ok(data: Seq<u8>, start: int, fuel: int) -> bool
    decreases fuel,
{
    if fuel <= 0 {
        true
    } else if start >= data.len() * 8 {
        false
    } else if bit_at(data, start) {
        true
    } else {
        uvlc_scan_ok(data, start + 1, fuel - 1)
    }
}

/// Whether decoding the unsigned exponential variable-length code at `start`
/// stays inside the buffer: the zero-run scan fits, and so does the payload
/// that follows a terminated run.
pub open spec fn uvlc_ok(data: Seq<u8>, start: int) -> bool {
    let z = leading_zeros(data, start, 32);
    uvlc_scan_ok(data, start, 32) && (z == 32 || start + 2 * z + 1 <= data.len() * 8)
}

/// The value of the unsigned exponential variable-length code at `start`:
/// a zero-run of length `z` terminated by a one bit is followed by `z`
/// payload bits, and decodes to `payload + pow2(z) - 1`; a full 32-zero run
/// saturates to the largest 32-bit value.
pub open spec fn uvlc_value(data: Seq<u8>, start: int) -> nat {
    let z = leading_zeros(data, start, 32);
    if z >= 32 {
        0xffff_ffff
    } else {
        (bits_value(data, start + z + 1, z) + pow2(z as nat) - 1) as nat
    }
}

/// How many bits the exponential code at `start` occupies.
pub open spec fn uvlc_bits(data: Seq<u8>, start: int) -> int {
    let z = leading_zeros(data, start, 32);
    if z >= 32 {
        32
    } else {
        2 * z + 1
    }
}

/// Whether the base-128 continuation code at `start` ends inside the buffer,
/// reading whole "bytes" of eight bits each and at most `max` of them.
pub open spec fn leb128_ok(data: Seq<u8>, start: int, max: int) -> bool
    decreases max,
{
    if start + 8 > data.len() * 8 {
        false
    } else if max <= 1 {
        true
    } else if bits_value(data, start, 8) < 128 {
        true
    } else {
        leb128_ok(data, start + 8, max - 1)
    }
}

/// The value of the base-128 continuation code at `start`: each byte
/// contributes its low seven bits, least significant group first, and a high
/// bit announces that another byte follows. At most `max` bytes are read.
pub open spec fn leb128_value(data: Seq<u8>, start: int, max: int) -> nat
    decreases max,
{
    if max <= 0 {
        0
    } else {
        let b = bits_value(data, start, 8);
        if b < 128 {
            b
        } else {
            (b - 128 + 128 * leb128_value(data, start + 8, max - 1)) as nat
        }
    }
}

/// How many bytes the base-128 code at `start` occupies, capped at `max`.
pub open spec fn leb128_nbytes(data: Seq<u8>, start: int, max: int) -> int
    decreases max,
{
    if max <= 1 {
        1
    } else if bits_value(data, start, 8) < 128 {
        1
    } else {
        1 + leb128_nbytes(data, start + 8, max - 1)
    }
}

/// A base-128 code occupies at least one byte and at most `max`.
pub proof fn lemma_leb128_nbytes_bound(data: Seq<u8>, start: int, max: int)
    requires
        max >= 1,
    ensures
        1 <= leb128_nbytes(data, start, max) <= max,
    decreases max,
{
    if max > 1 && bits_value(data, start, 8) >= 128 {
        lemma_leb128_nbytes_bound(data, start + 8, max - 1);
    }
}

/// A base-128 code depends only on the bits it occupies: buffers of equal
/// length whose bits agree over the code's own span decode alike.
pub proof fn lemma_leb128_agree(d1: Seq<u8>, d2: Seq<u8>, start: int, max: int)
    requires
        max >= 1,
        d1.len() == d2.len(),
        leb128_ok(d1, start, max),
        forall|i: int|
            start <= i < start + 8 * leb128_nbytes(d1, start, max) ==> #[trigger] bit_at(d1, i)
                == bit_at(d2, i),
    ensures
        leb128_ok(d2, start, max),
        leb128_value(d2, start, max) == leb128_value(d1, start, max),
        leb128_nbytes(d2, start, max) == leb128_nbytes(d1, start, max),
    decreases max,
{
    lemma_leb128_nbytes_bound(d1, start, max);
    lemma_bits_value_agree(d1, d2, start, 8);
    let b = bits_value(d1, start, 8);
    if b >= 128 && max > 1 {
        lemma_leb128_nbytes_bound(d1, start + 8, max - 1);
        lemma_leb128_agree(d1, d2, start + 8, max - 1);
    } else if b >= 128 {
        assert(leb128_value(d1, start + 8, 0) == 0);
        assert(leb128_value(d2, start + 8, 0) == 0);
    }
}

/// A base-128 code of at most `max` bytes decodes below `pow2(7 * max)`.
pub proof fn lemma_leb128_value_bound(data: Seq<u8>, start: int, max: int)
    requires
        max >= 0,
    ensures
        leb128_value(data, start, max) < pow2((7 * max) as nat),
    decreases max,
{
    lemma2_to64();
    if max == 0 {
    } else {
        let b = bits_value(data, start, 8);
        lemma_bits_value_bound(data, start, 8);
        vstd::arithmetic::power2::lemma_pow2_adds(7, (7 * max - 7) as nat);
        if max == 1 {
            lemma_pow2_pos((7 * max - 7) as nat);
        } else {
            lemma_pow2_pos((7 * max - 7) as nat);
        }
        if b >= 128 {
            let rest = leb128_value(data, start + 8, max - 1);
            lemma_leb128_value_bound(data, start + 8, max - 1);
            let p = pow2((7 * max - 7) as nat);
            assert(128 * rest <= 128 * (p - 1)) by (nonlinear_arith)
                requires
                    rest <= p - 1,
            ;
        } else {
            lemma_pow2_pos((7 * max) as nat);
            assert(pow2(7) * pow2((7 * max - 7) as nat) >= pow2(7) * 1) by (nonlinear_arith)
                requires
                    pow2((7 * max - 7) as nat) >= 1,
            ;
        }
    }
}

/// Truncated or out-of-bounds input: the read would pass the end of the
/// buffer, or the decoded size does not fit the platform's size type.
/// Reported to the caller instead of reading garbage.
#[derive(Debug, Clone, Copy, PartialEq, Eq, Structural)]
pub enum ReadError {
    /// A read or skip would advance the position past the buffer's last bit.
    Truncated,
    /// A decoded length is too large for the platform's size type.
    TooLarge,
}

/// A bit-addressable read cursor over a borrowed, immutable byte buffer.
/// It owns nothing but the position of the next bit to read.
pub struct BitsReader<'a> {
    data: &'a [u8],
    index: usize,
    index_max: usize,
}

impl<'a> BitsReader<'a> {
    /// The bytes the cursor reads from.
    pub closed spec fn bytes(self) -> Seq<u8> {
        self.data@
    }

    /// The next bit to read, counted in bits from the start of the buffer.
    pub closed spec fn position(self) -> int {
        self.index as int
    }

    /// The number of addressable bits: eight per buffer byte.
    pub open spec fn limit(self) -> int {
        self.bytes().len() * 8int
    }

    /// The cursor's invariant: the recorded limit is the buffer's bit count
    /// and the position never passes it.
    pub closed spec fn wf(self) -> bool {
        self.index_max == self.data@.len() * 8 && self.index <= self.index_max
    }

    /// A fresh cursor at bit 0 of `data`.
    pub fn new(data: &'a [u8]) -> (r: BitsReader<'a>)
        requires
            data@.len() * 8 <= usize::MAX,
        ensures
            r.wf(),
            r.bytes() == data@,
            r.position() == 0,
            r.limit() == data@.len() * 8,
    {
        BitsReader { data, index: 0, index_max: data.len() * 8 }
    }

    /// The bit of byte `data` at offset `index`, most significant bit first.
    pub fn get_bit_bool(data: u8, index: usize) -> (r: bool)
        requires
            index < 8,
        ensures
            r == byte_bit(data, index as int),
    {
        let sh: u8 = 7 - (index as u8);
        let r = (data & (1u8 << sh)) != 0;
        proof {
            assert(((data & (1u8 << sh)) != 0) == (((data >> sh) & 1) == 1)) by (bit_vector)
                requires
                    sh < 8,
            ;
            assert(((data >> sh) & 1) == (data >> sh) % 2) by (bit_vector);
            lemma_u8_shr_is_div(data, sh);
        }
        r
    }

    /// The bit at absolute position `index`, without moving the cursor.
    pub fn get_bit(&self, index: usize) -> (r: bool)
        requires
            self.wf(),
            index < self.limit(),
        ensures
            r == bit_at(self.bytes(), index as int),
    {
        let n = index / 8;
        let off = index % 8;
        proof {
            lemma_multiply_divide_lt(index as int, self.data@.len() as int, 8);
        }
        let b = self.data[n];
        Self::get_bit_bool(b, off)
    }

    /// Claim `count` bits at the current position: on success the position
    /// advances past them and the old position is returned; a claim past the
    /// buffer's end fails and leaves the cursor untouched.
    fn read_check(&mut self, count: usize) -> (r: Result<usize, ReadError>)
        requires
            old(self).wf(),
        ensures
            final(self).wf(),
            final(self).bytes() == old(self).bytes(),
            r is Ok <==> old(self).position() + count <= old(self).limit(),
            r matches Ok(i) ==> i == old(self).position()
                && final(self).position() == old(self).position() + count,
            r is Err ==> *final(self) == *old(self),
    {
        if count <= self.index_max - self.index {
            let i = self.index;
            self.index = self.index + count;
            Ok(i)
        } else {
            Err(ReadError::Truncated)
        }
    }

    /// Consume one bit: true for a 1 bit, false for a 0 bit.
    pub fn read_bit(&mut self) -> (r: Result<bool, ReadError>)
        requires
            old(self).wf(),
        ensures
            final(self).wf(),
            final(self).bytes() == old(self).bytes(),
            final(self).limit() == old(self).limit(),
            r is Ok <==> old(self).position() + 1 <= old(self).limit(),
            r matches Ok(b) ==> b == bit_at(old(self).bytes(), old(self).position())
                && final(self).position() == old(self).position() + 1,
            r is Err ==> *final(self) == *old(self),
    {
        let i = self.read_check(1)?;
        Ok(self.get_bit(i))
    }

    /// Advance the position by `count` bits without interpreting them.
    pub fn read_skip(&mut self, count: u8) -> (r: Result<(), ReadError>)
        requires
            old(self).wf(),
        ensures
            final(self).wf(),
            final(self).bytes() == old(self).bytes(),
            final(self).limit() == old(self).limit(),
            r is Ok <==> old(self).position() + count <= old(self).limit(),
            r is Ok ==> final(self).position() == old(self).position() + count,
            r is Err ==> *final(self) == *old(self),
    {
        self.read_check(count as usize)?;
        Ok(())
    }

    /// Extract up to 8 bits starting at absolute bit `start`, without moving
    /// the cursor. The span may straddle two adjacent bytes: the part taken
    /// from the first byte is shifted up and the part taken from the second
    /// byte fills the low bits.
    /// The low `cnt` bits of `b` once its `sh` trailing bits are dropped:
    /// the shift-and-mask extraction step shared by both cases below.
    fn extract_bits(b: u8, sh: u8, cnt: u8) -> (r: u8)
        requires
            sh < 8,
            cnt <= 8,
        ensures
            r as nat == (b as nat / pow2(sh as nat)) % pow2(cnt as nat),
    {
        let c = cnt as u16;
        proof {
            assert(1u16 << c >= 1) by (bit_vector)
                requires
                    c <= 8,
            ;
        }
        let r = (b >> sh) & (((1u16 << c) - 1) as u8);
        proof {
            lemma2_to64();
            lemma_u8_shr_is_div(b, sh);
            vstd::bits::lemma_u16_shl_is_mul(1, c);
            if cnt == 8 {
                assert((b >> sh) & 0xffu8 == (b >> sh)) by (bit_vector);
                vstd::arithmetic::div_mod::lemma_small_mod((b >> sh) as nat, 256);
            } else {
                assert((((1u16 << c) - 1) as u8) as nat == vstd::bits::low_bits_mask(cnt as nat));
                vstd::bits::lemma_u8_low_bits_mask_is_mod(b >> sh, cnt as nat);
            }
        }
        r
    }

    /// Extract up to 8 bits starting at absolute bit `start`, without moving
    /// the cursor. The span may straddle two adjacent bytes: the part taken
    /// from the first byte is shifted up and the part taken from the second
    /// byte fills the low bits.
    pub fn get_1byte(&self, start: usize, count: usize) -> (r: u8)
        requires
            self.wf(),
            count <= 8,
            start + count <= self.limit(),
        ensures
            r as nat == bits_value(self.bytes(), start as int, count as int),
    {
        if count == 0 {
            return 0;
        }
        let start_byte = start / 8;
        let start_bit = start % 8;
        let end = start + count - 1;
        let end_byte = end / 8;
        let end_bit = end % 8;
        proof {
            lemma2_to64();
            lemma_fundamental_div_mod(start as int, 8);
            lemma_fundamental_div_mod(end as int, 8);
            lemma_multiply_divide_lt(end as int, self.data@.len() as int, 8);
        }
        if start_byte == end_byte {
            let byte = self.data[start_byte];
            let r = Self::extract_bits(byte, (7 - end_bit) as u8, count as u8);
            proof {
                assert(end_bit as int == start_bit as int + count as int - 1);
                lemma_bits_value_in_byte(
                    self.bytes(),
                    start_byte as int,
                    start_bit as int,
                    count as int,
                );
            }
            r
        } else {
            proof {
                vstd::arithmetic::div_mod::lemma_div_is_ordered(start as int, end as int, 8);
                assert(end_byte as int >= start_byte as int + 1);
            }
            let first = self.data[start_byte];
            let second = self.data[end_byte];
            let c1 = 8 - start_bit;
            let c2 = count - c1;
            let high = Self::extract_bits(first, 0, c1 as u8);
            let low = Self::extract_bits(second, (8 - c2) as u8, c2 as u8);
            proof {
                let d = self.bytes();
                let sb = start_byte as int;
                let off = start_bit as int;
                assert(off >= 1);
                lemma_fundamental_div_mod_converse(end as int, 8, sb + 1, off + count as int - 9);
                assert(end_byte as int == sb + 1);
                // the leading part: the low `c1` bits of the first byte
                lemma_bits_value_in_byte(d, sb, off, c1 as int);
                assert(first as nat / pow2(0) == first as nat);
                assert(high as nat == bits_value(d, start as int, c1 as int));
                // the trailing part: the high `c2` bits of the second byte
                lemma_bits_value_in_byte(d, sb + 1, 0, c2 as int);
                assert(low as nat == bits_value(d, start + c1 as int, c2 as int));
                // concatenating the parts: shift the lead past the tail, add
                lemma_bits_value_concat(d, start as int, c1 as int, c2 as int);
                lemma_bits_value_bound(d, start as int, c1 as int);
                lemma_bits_value_bound(d, start + c1 as int, c2 as int);
                vstd::arithmetic::power2::lemma_pow2_adds(c1 as nat, c2 as nat);
                assert(high as nat * pow2(c2 as nat) + pow2(c2 as nat) <= pow2(
                    (c1 + c2) as nat,
                )) by (nonlinear_arith)
                    requires
                        (high as nat) < pow2(c1 as nat),
                        pow2((c1 + c2) as nat) == pow2(c1 as nat) * pow2(c2 as nat),
                ;
                vstd::bits::lemma_u8_shl_is_mul(high, c2 as u8);
            }
            (high << (c2 as u8)) + low
        }
    }

    /// Extract `count` bits starting at absolute bit `start` into `res`,
    /// without moving the cursor: whole bytes first, then the left-over bits
    /// right-aligned in the following output byte. Later bytes of `res` are
    /// left as they were.
    pub fn get_nbyte(&self, start: usize, count: usize, res: &mut [u8])
        requires
            self.wf(),
            start + count <= self.limit(),
            count <= old(res)@.len() * 8,
        ensures
            final(res)@.len() == old(res)@.len(),
            forall|k: int|
                0 <= k < count as int / 8 ==> #[trigger] final(res)@[k] as nat == bits_value(
                    self.bytes(),
                    start + 8 * k,
                    8,
                ),
            count % 8 != 0 ==> final(res)@[count as int / 8] as nat == bits_value(
                self.bytes(),
                start + 8 * (count as int / 8),
                count as int % 8,
            ),
            forall|k: int|
                (count as int + 7) / 8 <= k < old(res)@.len() ==> final(res)@[k] == old(res)@[k],
    {
        let full = count / 8;
        let rem = count % 8;
        proof {
            lemma_fundamental_div_mod(count as int, 8);
            assert((count as int + 7) / 8 == full as int + (if rem == 0 {
                0int
            } else {
                1int
            })) by {
                lemma_fundamental_div_mod_converse(
                    count as int + 7,
                    8,
                    full as int + (if rem == 0 {
                        0int
                    } else {
                        1int
                    }),
                    (if rem == 0 {
                        7int
                    } else {
                        rem as int - 1
                    }),
                );
            }
        }
        let mut j: usize = 0;
        while j < full
            invariant
                self.wf(),
                j <= full,
                full == count as int / 8,
                rem == count as int % 8,
                count == 8 * full + rem,
                start + count <= self.limit(),
                count <= old(res)@.len() * 8,
                res@.len() == old(res)@.len(),
                forall|k: int|
                    0 <= k < j as int ==> #[trigger] res@[k] as nat == bits_value(
                        self.bytes(),
                        start + 8 * k,
                        8,
                    ),
                forall|k: int| j as int <= k < old(res)@.len() ==> res@[k] == old(res)@[k],
            decreases full - j,
        {
            let b = self.get_1byte(start + 8 * j, 8);
            res[j] = b;
            j = j + 1;
        }
        if rem > 0 {
            let b = self.get_1byte(start + 8 * full, rem);
            res[full] = b;
        }
    }

    /// Consume `count` bits into `res`, as `get_nbyte` lays them out.
    pub fn read_nbyte(&mut self, count: usize, res: &mut [u8]) -> (r: Result<(), ReadError>)
        requires
            old(self).wf(),
            count <= old(res)@.len() * 8,
        ensures
            final(self).wf(),
            final(self).bytes() == old(self).bytes(),
            final(self).limit() == old(self).limit(),
            final(res)@.len() == old(res)@.len(),
            r is Ok <==> old(self).position() + count <= old(self).limit(),
            r is Ok ==> final(self).position() == old(self).position() + count,
            r is Ok ==> forall|k: int|
                0 <= k < count as int / 8 ==> #[trigger] final(res)@[k] as nat == bits_value(
                    old(self).bytes(),
                    old(self).position() + 8 * k,
                    8,
                ),
            r is Ok && count % 8 != 0 ==> final(res)@[count as int / 8] as nat == bits_value(
                old(self).bytes(),
                old(self).position() + 8 * (count as int / 8),
                count as int % 8,
            ),
            r is Ok ==> forall|k: int|
                (count as int + 7) / 8 <= k < old(res)@.len() ==> final(res)@[k] == old(res)@[k],
            r is Err ==> *final(self) == *old(self) && final(res)@ == old(res)@,
    {
        let i = self.read_check(count)?;
        self.get_nbyte(i, count, res);
        Ok(())
    }

    /// Consume up to 8 bits and return their value.
    pub fn read_u8(&mut self, count: u8) -> (r: Result<u8, ReadError>)
        requires
            old(self).wf(),
            count <= 8,
        ensures
            final(self).wf(),
            final(self).bytes() == old(self).bytes(),
            final(self).limit() == old(self).limit(),
            r is Ok <==> old(self).position() + count <= old(self).limit(),
            r matches Ok(v) ==> v as nat == bits_value(
                old(self).bytes(),
                old(self).position(),
                count as int,
            ) && final(self).position() == old(self).position() + count && (v as nat) < pow2(
                count as nat,
            ),
            r is Err ==> *final(self) == *old(self),
    {
        let i = self.read_check(count as usize)?;
        proof {
            lemma_bits_value_bound(old(self).bytes(), old(self).position(), count as int);
        }
        Ok(self.get_1byte(i, count as usize))
    }

    /// Consume up to 16 bits and return their value, high bits first.
    pub fn read_u16(&mut self, count: u8) -> (r: Result<u16, ReadError>)
        requires
            old(self).wf(),
            count <= 16,
        ensures
            final(self).wf(),
            final(self).bytes() == old(self).bytes(),
            final(self).limit() == old(self).limit(),
            r is Ok <==> old(self).position() + count <= old(self).limit(),
            r matches Ok(v) ==> v as nat == bits_value(
                old(self).bytes(),
                old(self).position(),
                count as int,
            ) && final(self).position() == old(self).position() + count && (v as nat) < pow2(
                count as nat,
            ),
            r is Err ==> *final(self) == *old(self),
    {
        let v = self.read_u32(count)?;
        proof {
            lemma_bits_value_bound(old(self).bytes(), old(self).position(), count as int);
            lemma2_to64();
            if count < 16 {
                vstd::arithmetic::power2::lemma_pow2_strictly_increases(count as nat, 16);
            }
        }
        Ok(v as u16)
    }

    /// Consume up to 32 bits and return their value, high bits first.
    pub fn read_u32(&mut self, count: u8) -> (r: Result<u32, ReadError>)
        requires
            old(self).wf(),
            count <= 32,
        ensures
            final(self).wf(),
            final(self).bytes() == old(self).bytes(),
            final(self).limit() == old(self).limit(),
            r is Ok <==> old(self).position() + count <= old(self).limit(),
            r matches Ok(v) ==> v as nat == bits_value(
                old(self).bytes(),
                old(self).position(),
                count as int,
            ) && final(self).position() == old(self).position() + count && (v as nat) < pow2(
                count as nat,
            ),
            r is Err ==> *final(self) == *old(self),
    {
        let i0 = self.read_check(count as usize)?;
        let ghost data = self.bytes();
        let mut acc: u32 = 0;
        let mut k: u8 = 0;
        proof {
            lemma2_to64();
        }
        while k < count
            invariant
                self.wf(),
                count <= 32,
                k <= count,
                self.bytes() == data,
                i0 + count <= self.limit(),
                acc as nat == bits_value(data, i0 as int, k as int),
                (acc as nat) < pow2(k as nat),
            decreases count - k,
        {
            let b = self.get_bit(i0 + k as usize);
            proof {
                lemma_pow2_unfold(k as nat + 1);
                lemma2_to64();
                if (k as nat) < 31 {
                    vstd::arithmetic::power2::lemma_pow2_strictly_increases(k as nat, 31);
                }
            }
            acc = 2 * acc + (if b {
                1
            } else {
                0
            });
            k = k + 1;
        }
        proof {
            lemma_bits_value_bound(data, i0 as int, count as int);
        }
        Ok(acc)
    }

    /// Consume the unary prefix of the exponential code: zero bits up to a
    /// terminating one bit, or `fuel` zeros with no terminator. Returns the
    /// number of zeros read. A scan that runs out of buffer first fails with
    /// the cursor at the buffer's end.
    fn read_zero_run(&mut self, fuel: u8) -> (r: Result<u8, ReadError>)
        requires
            old(self).wf(),
        ensures
            final(self).wf(),
            final(self).bytes() == old(self).bytes(),
            final(self).limit() == old(self).limit(),
            r is Ok <==> uvlc_scan_ok(old(self).bytes(), old(self).position(), fuel as int),
            r matches Ok(z) ==> z == leading_zeros(old(self).bytes(), old(self).position(), fuel as int)
                && z <= fuel
                && final(self).position() == old(self).position() + (if z < fuel {
                    z + 1
                } else {
                    z as int
                }),
            r is Err ==> final(self).position() == final(self).limit(),
        decreases fuel,
    {
        if fuel == 0 {
            return Ok(0);
        }
        match self.read_bit() {
            Err(e) => Err(e),
            Ok(true) => Ok(0),
            Ok(false) => {
                let z = self.read_zero_run(fuel - 1)?;
                Ok(z + 1)
            },
        }
    }

    /// Decode the unsigned exponential variable-length code: a run of `z`
    /// zeros and a one bit, then `z` payload bits, yielding
    /// `payload + pow2(z) - 1`; a full run of 32 zeros saturates to the
    /// largest 32-bit value instead of failing.
    pub fn read_uvlc(&mut self) -> (r: Result<u32, ReadError>)
        requires
            old(self).wf(),
        ensures
            final(self).wf(),
            final(self).bytes() == old(self).bytes(),
            final(self).limit() == old(self).limit(),
            r is Ok <==> uvlc_ok(old(self).bytes(), old(self).position()),
            r matches Ok(v) ==> v == uvlc_value(old(self).bytes(), old(self).position())
                && final(self).position() == old(self).position() + uvlc_bits(
                old(self).bytes(),
                old(self).position(),
            ),
    {
        proof {
            lemma_leading_zeros_bound(old(self).bytes(), old(self).position(), 32);
        }
        let z = self.read_zero_run(32)?;
        if z >= 32 {
            return Ok(u32::MAX);
        }
        let payload = self.read_u32(z)?;
        proof {
            lemma2_to64();
            if (z as nat) < 31 {
                vstd::arithmetic::power2::lemma_pow2_strictly_increases(z as nat, 31);
            }
        }
        let base = 1u32 << (z as u32);
        proof {
            vstd::bits::lemma_u32_shl_is_mul(1, z as u32);
        }
        Ok(payload + base - 1)
    }

    /// One step of the base-128 continuation code: this byte's low seven
    /// bits, plus 128 times whatever the following bytes contribute while
    /// this byte's high bit asks for more. At most `max` bytes are read.
    fn read_leb128_rec(&mut self, max: u8) -> (r: Result<u64, ReadError>)
        requires
            old(self).wf(),
            1 <= max <= 8,
        ensures
            final(self).wf(),
            final(self).bytes() == old(self).bytes(),
            final(self).limit() == old(self).limit(),
            r is Ok <==> leb128_ok(old(self).bytes(), old(self).position(), max as int),
            r matches Ok(v) ==> v as nat == leb128_value(
                old(self).bytes(),
                old(self).position(),
                max as int,
            ) && final(self).position() == old(self).position() + 8 * leb128_nbytes(
                old(self).bytes(),
                old(self).position(),
                max as int,
            ),
            r is Err ==> final(self).position() >= old(self).position(),
        decreases max,
    {
        let b = match self.read_u8(8) {
            Ok(b) => b,
            Err(e) => {
                return Err(e);
            },
        };
        proof {
            lemma2_to64();
            assert((b & 0x7f) == (if b < 128 {
                b
            } else {
                (b - 128) as u8
            })) by (bit_vector);
        }
        if b < 128 || max == 1 {
            proof {
                if b >= 128 {
                    assert(leb128_value(old(self).bytes(), old(self).position() + 8, 0) == 0);
                }
            }
            Ok((b & 0x7f) as u64)
        } else {
            let rest = self.read_leb128_rec(max - 1)?;
            proof {
                lemma_leb128_value_bound(
                    old(self).bytes(),
                    old(self).position() + 8,
                    max as int - 1,
                );
                lemma2_to64();
                lemma2_to64_rest();
                vstd::arithmetic::power2::lemma_pow2_adds(7, (7 * (max as int - 1)) as nat);
                if max < 8 {
                    vstd::arithmetic::power2::lemma_pow2_strictly_increases(
                        (7 * (max as int - 1)) as nat,
                        49,
                    );
                }
                let p = pow2((7 * (max as int - 1)) as nat);
                assert(128 * (rest as nat) <= 128 * (p - 1)) by (nonlinear_arith)
                    requires
                        rest as nat <= p - 1,
                ;
            }
            Ok(((b & 0x7f) as u64) + 128 * rest)
        }
    }

    /// Decode the base-128 continuation code into the platform's size type.
    /// At most eight bytes are consumed, so the decoded value stays below
    /// `pow2(56)`; one that still does not fit the size type is an error.
    pub fn read_leb128(&mut self) -> (r: Result<usize, ReadError>)
        requires
            old(self).wf(),
        ensures
            final(self).wf(),
            final(self).bytes() == old(self).bytes(),
            final(self).limit() == old(self).limit(),
            final(self).position() >= old(self).position(),
            r is Ok <==> leb128_ok(old(self).bytes(), old(self).position(), 8) && leb128_value(
                old(self).bytes(),
                old(self).position(),
                8,
            ) <= usize::MAX,
            r matches Ok(v) ==> v as nat == leb128_value(
                old(self).bytes(),
                old(self).position(),
                8,
            ) && final(self).position() == old(self).position() + 8 * leb128_nbytes(
                old(self).bytes(),
                old(self).position(),
                8,
            ),
    {
        proof {
            lemma_leb128_nbytes_bound(old(self).bytes(), old(self).position(), 8);
        }
        let v = self.read_leb128_rec(8)?;
        if v <= usize::MAX as u64 {
            Ok(v as usize)
        } else {
            Err(ReadError::TooLarge)
        }
    }

    /// Decode an `count`-bit two's-complement signed value: the unsigned
    /// reading, lowered by `pow2(count)` when the sign bit is set.
    pub fn read_su(&mut self, count: u8) -> (r: Result<i32, ReadError>)
        requires
            old(self).wf(),
            1 <= count <= 31,
        ensures
            final(self).wf(),
            final(self).bytes() == old(self).bytes(),
            final(self).limit() == old(self).limit(),
            r is Ok <==> old(self).position() + count <= old(self).limit(),
            r matches Ok(v) ==> ({
                let u = bits_value(old(self).bytes(), old(self).position(), count as int);
                v as int == (if u >= pow2((count - 1) as nat) {
                    u - pow2(count as nat)
                } else {
                    u as int
                })
            }) && final(self).position() == old(self).position() + count,
            r is Err ==> *final(self) == *old(self),
    {
        let value = self.read_u32(count)?;
        proof {
            lemma2_to64();
            if ((count - 1) as nat) < 31 {
                vstd::arithmetic::power2::lemma_pow2_strictly_increases((count - 1) as nat, 31);
            }
        }
        let half = 1u32 << ((count - 1) as u32);
        proof {
            vstd::bits::lemma_u32_shl_is_mul(1, (count - 1) as u32);
            lemma_pow2_unfold(count as nat);
        }
        if value >= half {
            Ok(((value as i64) - 2 * (half as i64)) as i32)
        } else {
            Ok(value as i32)
        }
    }

    /// Decode the bounded non-symmetric code for an alphabet of `n` symbols:
    /// with `w = floor_log2(n)` and `m = pow2(w + 1) - n`, a first reading
    /// `v` of `w` bits below `m` is the value; otherwise one extra bit joins
    /// it as `2 * v - m + extra`. Either way the value lands below `n`.
    pub fn read_ns(&mut self, n: u32) -> (r: Result<u32, ReadError>)
        requires
            old(self).wf(),
            n >= 1,
        ensures
            final(self).wf(),
            final(self).bytes() == old(self).bytes(),
            final(self).limit() == old(self).limit(),
            ({
                let w = floor_log2_spec(n as nat) as int;
                let m = pow2((w + 1) as nat) - n;
                let v = bits_value(old(self).bytes(), old(self).position(), w) as int;
                if v < m {
                    (r is Ok <==> old(self).position() + w <= old(self).limit()) && (r matches Ok(x)
                        ==> x == v && final(self).position() == old(self).position() + w) && (
                    r is Err ==> *final(self) == *old(self))
                } else {
                    (r is Ok <==> old(self).position() + w + 1 <= old(self).limit()) && (r matches Ok(x)
                        ==> x as int == 2 * v - m + (if bit_at(
                        old(self).bytes(),
                        old(self).position() + w,
                    ) {
                        1int
                    } else {
                        0int
                    }) && final(self).position() == old(self).position() + w + 1)
                }
            }),
            r matches Ok(x) ==> x < n,
    {
        let w = floor_log2(n as u64);
        proof {
            lemma2_to64();
            assert(w <= 31) by {
                if w > 31 {
                    if w > 32 {
                        vstd::arithmetic::power2::lemma_pow2_strictly_increases(32, w as nat);
                    }
                    assert(pow2(32) <= pow2(w as nat));
                }
            }
            lemma_pow2_unfold(w as nat + 1);
            vstd::bits::lemma_u64_shl_is_mul(1, (w + 1) as u64);
        }
        let m64 = (1u64 << ((w as u64) + 1)) - (n as u64);
        let m = m64 as u32;
        let v = self.read_u32(w)?;
        if v < m {
            Ok(v)
        } else {
            proof {
                if (w as nat) < 31 {
                    vstd::arithmetic::power2::lemma_pow2_strictly_increases(w as nat, 31);
                }
            }
            let e = self.read_bit()?;
            Ok(2 * v - m + (if e {
                1
            } else {
                0
            }))
        }
    }

    /// Advance to the next byte boundary: zero to seven bits of skip. Never
    /// fails, because the buffer's bit count is itself a whole number of
    /// bytes.
    pub fn read_alignment(&mut self)
        requires
            old(self).wf(),
        ensures
            final(self).wf(),
            final(self).bytes() == old(self).bytes(),
            final(self).limit() == old(self).limit(),
            final(self).position() == old(self).position() + (8 - old(self).position() % 8) % 8,
            final(self).position() % 8 == 0,
    {
        let n = self.index % 8;
        if n > 0 {
            proof {
                let pos = self.position();
                let len = self.data@.len() as int;
                lemma_fundamental_div_mod(pos, 8);
                assert(pos < 8 * len);
                lemma_multiply_divide_lt(pos, len, 8);
                assert(8 * (pos / 8) + 8 <= 8 * len) by (nonlinear_arith)
                    requires
                        pos / 8 < len,
                ;
            }
            let skipped = self.read_skip((8 - n) as u8);
            proof {
                assert(skipped is Ok);
            }
        }
    }

    /// The current bit position, for consumed-byte accounting by callers.
    pub fn read_position(&self) -> (r: usize)
        ensures
            r == self.position(),
    {
        self.index
    }
}

/// The record-parsing capability: a value of the type is built in one shot
/// by a fixed sequence of reads from a bit cursor, in the order the format
/// mandates, and a read past the buffer fails the whole record. Reading
/// never touches the buffer's bytes, only the cursor's position.
pub trait FromBitsReader: Sized {
    /// Read one record of this type starting at the cursor's position.
    fn from_bits_reader(reader: &mut BitsReader<'_>) -> (r: Result<Self, ReadError>)
        requires
            old(reader).wf(),
        ensures
            final(reader).wf(),
            final(reader).bytes() == old(reader).bytes(),
            final(reader).limit() == old(reader).limit(),
            final(reader).position() >= old(reader).position(),
    ;
}

} // verus!
