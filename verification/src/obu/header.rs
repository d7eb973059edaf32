//! The fixed-format header prefixing every open bitstream unit: the record
//! that demonstrates the cursor-composition protocol.

use vstd::prelude::*;

use crate::utils::bits::{
    bit_at, bits_value, leb128_nbytes, leb128_ok, leb128_value, BitsReader, FromBitsReader,
    ReadError,
};
use crate::utils::enums::ObuType;

verus! {

/// The header before every unit: its type, two presence flags, the optional
/// scalability identifiers, and the payload size in bytes.
#[derive(Debug, Clone, Copy, PartialEq, Eq, Structural)]
pub struct ObuHeader {
    /// Leading bit, zero in well-formed streams; captured, not rejected.
    pub obu_forbidden_bit: bool,
    /// The unit's category, from its 4-bit type code.
    pub obu_type: ObuType,
    /// Whether the temporal and spatial identifiers follow.
    pub obu_extension_flag: bool,
    /// Whether the size field is meaningful to the caller.
    pub obu_has_size_field: bool,
    /// Temporal layer of the unit; zero when no extension is present.
    pub temporal_id: u8,
    /// Spatial layer of the unit; zero when no extension is present.
    pub spatial_id: u8,
    /// Payload bytes following the header, from the base-128 size field.
    pub obu_size: usize,
}

/// How many fixed-width bits the header holds before its size field: eight,
/// plus five more identifier bits when the extension flag (bit 5) is set.
pub open spec fn spec_header_fixed_bits(data: Seq<u8>, start: int) -> int {
    if bit_at(data, start + 5) {
        13
    } else {
        8
    }
}

/// Whether decoding a header at `start` succeeds: the fixed bits and the
/// whole size field lie inside the buffer, and the size fits the platform's
/// size type.
pub open spec fn spec_header_ok(data: Seq<u8>, start: int) -> bool {
    let fixed = spec_header_fixed_bits(data, start);
    &&& start + fixed <= data.len() * 8
    &&& leb128_ok(data, start + fixed, 8)
    &&& leb128_value(data, start + fixed, 8) <= usize::MAX
}

/// The record a successful decode at `start` yields: every field is a
/// function of the buffer's bits alone.
pub open spec fn spec_header(data: Seq<u8>, start: int) -> ObuHeader {
    let ext = bit_at(data, start + 5);
    let fixed = spec_header_fixed_bits(data, start);
    ObuHeader {
        obu_forbidden_bit: bit_at(data, start),
        obu_type: ObuType::spec_from(bits_value(data, start + 1, 4) as u8),
        obu_extension_flag: ext,
        obu_has_size_field: bit_at(data, start + 6),
        temporal_id: if ext {
            bits_value(data, start + 8, 3) as u8
        } else {
            0
        },
        spatial_id: if ext {
            bits_value(data, start + 11, 2) as u8
        } else {
            0
        },
        obu_size: leb128_value(data, start + fixed, 8) as usize,
    }
}

/// How many bits a successful decode at `start` consumes.
pub open spec fn spec_header_bits(data: Seq<u8>, start: int) -> int {
    let fixed = spec_header_fixed_bits(data, start);
    fixed + 8 * leb128_nbytes(data, start + fixed, 8)
}

/// Decoding a header is a pure function of the bits it reads: two buffers
/// of equal length whose bits agree over the span one successful decode
/// consumes yield the very same record, consuming the very same bits. With
/// `read_from`'s contract, which pins its result to `spec_header` and leaves
/// the buffer's bytes untouched, re-running a decode over the same bytes
/// from a fresh cursor always reproduces the record.
pub proof fn lemma_header_depends_only_on_read_bits(d1: Seq<u8>, d2: Seq<u8>, start: int)
    requires
        d1.len() == d2.len(),
        spec_header_ok(d1, start),
        forall|i: int|
            start <= i < start + spec_header_bits(d1, start) ==> #[trigger] bit_at(d1, i) == bit_at(
                d2,
                i,
            ),
    ensures
        spec_header_ok(d2, start),
        spec_header(d2, start) == spec_header(d1, start),
        spec_header_bits(d2, start) == spec_header_bits(d1, start),
{
    let fixed = spec_header_fixed_bits(d1, start);
    crate::utils::bits::lemma_leb128_nbytes_bound(d1, start + fixed, 8);
    assert(spec_header_bits(d1, start) >= fixed + 8);
    assert(bit_at(d2, start + 5) == bit_at(d1, start + 5));
    assert(bit_at(d2, start) == bit_at(d1, start));
    assert(bit_at(d2, start + 6) == bit_at(d1, start + 6));
    crate::utils::bits::lemma_bits_value_agree(d1, d2, start + 1, 4);
    if bit_at(d1, start + 5) {
        crate::utils::bits::lemma_bits_value_agree(d1, d2, start + 8, 3);
        crate::utils::bits::lemma_bits_value_agree(d1, d2, start + 11, 2);
    }
    crate::utils::bits::lemma_leb128_agree(d1, d2, start + fixed, 8);
}

impl ObuHeader {
    /// Decode one unit header at the cursor's position. Fields are read in
    /// the mandated order: the forbidden bit, the 4-bit type code, the
    /// extension and has-size flags, one reserved bit, the two identifiers
    /// when the extension flag asks for them, and the base-128 size field,
    /// which this layer always consumes. The buffer is never written; the
    /// record is a pure function of its bits and the start position, so
    /// re-running the decode over the same bytes yields the same record.
    pub fn read_from(reader: &mut BitsReader<'_>) -> (r: Result<ObuHeader, ReadError>)
        requires
            old(reader).wf(),
        ensures
            final(reader).wf(),
            final(reader).bytes() == old(reader).bytes(),
            final(reader).limit() == old(reader).limit(),
            final(reader).position() >= old(reader).position(),
            r is Ok <==> spec_header_ok(old(reader).bytes(), old(reader).position()),
            r matches Ok(h) ==> h == spec_header(old(reader).bytes(), old(reader).position())
                && final(reader).position() == old(reader).position() + spec_header_bits(
                old(reader).bytes(),
                old(reader).position(),
            ),
    {
        let obu_forbidden_bit = reader.read_bit()?;
        let type_code = reader.read_u8(4)?;
        let obu_type = ObuType::from_code(type_code);
        let obu_extension_flag = reader.read_bit()?;
        let obu_has_size_field = reader.read_bit()?;
        reader.read_skip(1)?;
        let (temporal_id, spatial_id) = if obu_extension_flag {
            (reader.read_u8(3)?, reader.read_u8(2)?)
        } else {
            (0, 0)
        };
        let obu_size = reader.read_leb128()?;
        Ok(
            ObuHeader {
                obu_forbidden_bit,
                obu_type,
                obu_extension_flag,
                obu_has_size_field,
                temporal_id,
                spatial_id,
                obu_size,
            },
        )
    }
}

impl FromBitsReader for ObuHeader {
    fn from_bits_reader(reader: &mut BitsReader<'_>) -> (r: Result<ObuHeader, ReadError>) {
        ObuHeader::read_from(reader)
    }
}

} // verus!
