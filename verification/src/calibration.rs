//! Factory calibration of the barometric chip.
//!
//! The chip's non-volatile memory holds a fixed 24-byte block of twelve
//! little-endian correction coefficients: three temperature coefficients at
//! offsets 0–5 (the first unsigned, the rest signed) and nine pressure
//! coefficients at offsets 6–23 (the first unsigned, the rest signed). The
//! block is read once at driver construction; the decoded coefficients are
//! immutable for the driver's lifetime.

use vstd::prelude::*;

verus! {

/// Length in bytes of the calibration block.
pub const CALIB_DATA_SIZE: usize = 24;

/// The twelve decoded correction coefficients: three for temperature, nine
/// for pressure. Consumed by the manufacturer compensation formula.
#[derive(Clone, Copy, Debug, PartialEq, Eq, Structural)]
pub struct CalibrationData {
    pub dig_t1: u16,
    pub dig_t2: i16,
    pub dig_t3: i16,
    pub dig_p1: u16,
    pub dig_p2: i16,
    pub dig_p3: i16,
    pub dig_p4: i16,
    pub dig_p5: i16,
    pub dig_p6: i16,
    pub dig_p7: i16,
    pub dig_p8: i16,
    pub dig_p9: i16,
}

/// The unsigned 16-bit value stored little-endian in two bytes.
pub open spec fn le_u16(lo: u8, hi: u8) -> u16 {
    (lo + 256 * hi) as u16
}

/// Reinterpretation of an unsigned 16-bit value as two's-complement signed.
pub open spec fn as_signed16(v: u16) -> i16 {
    if v < 32768 {
        v as i16
    } else {
        (v - 65536) as i16
    }
}

/// The signed 16-bit value stored little-endian in two bytes.
pub open spec fn le_i16(lo: u8, hi: u8) -> i16 {
    as_signed16(le_u16(lo, hi))
}

/// The coefficients held by a calibration block, per the fixed byte layout.
pub open spec fn decoded_calibration(b: Seq<u8>) -> CalibrationData {
    CalibrationData {
        dig_t1: le_u16(b[0], b[1]),
        dig_t2: le_i16(b[2], b[3]),
        dig_t3: le_i16(b[4], b[5]),
        dig_p1: le_u16(b[6], b[7]),
        dig_p2: le_i16(b[8], b[9]),
        dig_p3: le_i16(b[10], b[11]),
        dig_p4: le_i16(b[12], b[13]),
        dig_p5: le_i16(b[14], b[15]),
        dig_p6: le_i16(b[16], b[17]),
        dig_p7: le_i16(b[18], b[19]),
        dig_p8: le_i16(b[20], b[21]),
        dig_p9: le_i16(b[22], b[23]),
    }
}

/// Two's-complement reinterpretation of a signed 16-bit value as unsigned.
/// Inverse of `as_signed16`.
pub open spec fn as_unsigned16(v: i16) -> u16 {
    if v >= 0 {
        v as u16
    } else {
        (v + 65536) as u16
    }
}

/// Low byte of the little-endian encoding.
pub open spec fn lo_byte(v: u16) -> u8 {
    (v % 256) as u8
}

/// High byte of the little-endian encoding.
pub open spec fn hi_byte(v: u16) -> u8 {
    (v / 256) as u8
}

/// The 24-byte block that stores the given coefficients, per the same
/// fixed byte layout that `decoded_calibration` reads.
pub open spec fn encoded_calibration(c: CalibrationData) -> Seq<u8> {
    seq![
        lo_byte(c.dig_t1),
        hi_byte(c.dig_t1),
        lo_byte(as_unsigned16(c.dig_t2)),
        hi_byte(as_unsigned16(c.dig_t2)),
        lo_byte(as_unsigned16(c.dig_t3)),
        hi_byte(as_unsigned16(c.dig_t3)),
        lo_byte(c.dig_p1),
        hi_byte(c.dig_p1),
        lo_byte(as_unsigned16(c.dig_p2)),
        hi_byte(as_unsigned16(c.dig_p2)),
        lo_byte(as_unsigned16(c.dig_p3)),
        hi_byte(as_unsigned16(c.dig_p3)),
        lo_byte(as_unsigned16(c.dig_p4)),
        hi_byte(as_unsigned16(c.dig_p4)),
        lo_byte(as_unsigned16(c.dig_p5)),
        hi_byte(as_unsigned16(c.dig_p5)),
        lo_byte(as_unsigned16(c.dig_p6)),
        hi_byte(as_unsigned16(c.dig_p6)),
        lo_byte(as_unsigned16(c.dig_p7)),
        hi_byte(as_unsigned16(c.dig_p7)),
        lo_byte(as_unsigned16(c.dig_p8)),
        hi_byte(as_unsigned16(c.dig_p8)),
        lo_byte(as_unsigned16(c.dig_p9)),
        hi_byte(as_unsigned16(c.dig_p9)),
    ]
}

/// Rebuilding a 16-bit value from its two little-endian bytes gives the
/// value back.
proof fn lemma_le_u16_of_bytes(v: u16)
    ensures
        le_u16(lo_byte(v), hi_byte(v)) == v,
{
    assert(v == 256 * (v / 256) + v % 256) by (nonlinear_arith);
}

/// The two's-complement reinterpretations invert one another.
proof fn lemma_signed_unsigned16(v: i16)
    ensures
        as_signed16(as_unsigned16(v)) == v,
{
}

/// Encoding a calibration block from known coefficients and decoding it
/// reproduces exactly the coefficients the block was built from.
pub proof fn lemma_calibration_round_trip(c: CalibrationData)
    ensures
        decoded_calibration(encoded_calibration(c)) == c,
{
    lemma_le_u16_of_bytes(c.dig_t1);
    lemma_le_u16_of_bytes(c.dig_p1);
    lemma_le_u16_of_bytes(as_unsigned16(c.dig_t2));
    lemma_le_u16_of_bytes(as_unsigned16(c.dig_t3));
    lemma_le_u16_of_bytes(as_unsigned16(c.dig_p2));
    lemma_le_u16_of_bytes(as_unsigned16(c.dig_p3));
    lemma_le_u16_of_bytes(as_unsigned16(c.dig_p4));
    lemma_le_u16_of_bytes(as_unsigned16(c.dig_p5));
    lemma_le_u16_of_bytes(as_unsigned16(c.dig_p6));
    lemma_le_u16_of_bytes(as_unsigned16(c.dig_p7));
    lemma_le_u16_of_bytes(as_unsigned16(c.dig_p8));
    lemma_le_u16_of_bytes(as_unsigned16(c.dig_p9));
    lemma_signed_unsigned16(c.dig_t2);
    lemma_signed_unsigned16(c.dig_t3);
    lemma_signed_unsigned16(c.dig_p2);
    lemma_signed_unsigned16(c.dig_p3);
    lemma_signed_unsigned16(c.dig_p4);
    lemma_signed_unsigned16(c.dig_p5);
    lemma_signed_unsigned16(c.dig_p6);
    lemma_signed_unsigned16(c.dig_p7);
    lemma_signed_unsigned16(c.dig_p8);
    lemma_signed_unsigned16(c.dig_p9);
}

/// Reads the unsigned coefficient stored little-endian at `at`.
fn read_u16(block: &[u8], at: usize) -> (v: u16)
    requires
        at + 1 < block@.len(),
    ensures
        v == le_u16(block@[at as int], block@[at + 1]),
{
    block[at] as u16 + block[at + 1] as u16 * 256
}

/// Reads the signed coefficient stored little-endian at `at`.
fn read_i16(block: &[u8], at: usize) -> (v: i16)
    requires
        at + 1 < block@.len(),
    ensures
        v == le_i16(block@[at as int], block@[at + 1]),
{
    let u = read_u16(block, at);
    proof {
        assert(u < 32768 ==> u as i16 == u as int) by (bit_vector);
        assert(u >= 32768 ==> u as i16 == u - 65536) by (bit_vector);
    }
    u as i16
}

/// Decodes the 24-byte calibration block into the twelve coefficients, per
/// the fixed little-endian byte layout.
pub fn decode_calibration(block: &[u8]) -> (c: CalibrationData)
    requires
        block@.len() == CALIB_DATA_SIZE,
    ensures
        c == decoded_calibration(block@),
{
    CalibrationData {
        dig_t1: read_u16(block, 0),
        dig_t2: read_i16(block, 2),
        dig_t3: read_i16(block, 4),
        dig_p1: read_u16(block, 6),
        dig_p2: read_i16(block, 8),
        dig_p3: read_i16(block, 10),
        dig_p4: read_i16(block, 12),
        dig_p5: read_i16(block, 14),
        dig_p6: read_i16(block, 16),
        dig_p7: read_i16(block, 18),
        dig_p8: read_i16(block, 20),
        dig_p9: read_i16(block, 22),
    }
}

/// Appends the little-endian encoding of an unsigned coefficient.
fn push_u16(out: &mut Vec<u8>, v: u16)
    ensures
        final(out)@ == old(out)@.push(lo_byte(v)).push(hi_byte(v)),
{
    out.push((v % 256) as u8);
    out.push((v / 256) as u8);
}

/// Appends the little-endian encoding of a signed coefficient.
fn push_i16(out: &mut Vec<u8>, v: i16)
    ensures
        final(out)@ == old(out)@.push(lo_byte(as_unsigned16(v))).push(
            hi_byte(as_unsigned16(v)),
        ),
{
    proof {
        assert(v >= 0 ==> v as u16 == v as int) by (bit_vector);
        assert(v < 0 ==> v as u16 == v + 65536) by (bit_vector);
    }
    push_u16(out, v as u16);
}

/// Builds the 24-byte calibration block that stores the given coefficients:
/// the inverse fixture of `decode_calibration`.
pub fn encode_calibration(c: &CalibrationData) -> (block: Vec<u8>)
    ensures
        block@ == encoded_calibration(*c),
        block@.len() == CALIB_DATA_SIZE,
{
    let mut out: Vec<u8> = Vec::new();
    push_u16(&mut out, c.dig_t1);
    push_i16(&mut out, c.dig_t2);
    push_i16(&mut out, c.dig_t3);
    push_u16(&mut out, c.dig_p1);
    push_i16(&mut out, c.dig_p2);
    push_i16(&mut out, c.dig_p3);
    push_i16(&mut out, c.dig_p4);
    push_i16(&mut out, c.dig_p5);
    push_i16(&mut out, c.dig_p6);
    push_i16(&mut out, c.dig_p7);
    push_i16(&mut out, c.dig_p8);
    push_i16(&mut out, c.dig_p9);
    proof {
        assert(out@ =~= encoded_calibration(*c));
    }
    out
}

} // verus!
