//! Factory trim coefficients and their 24-byte little-endian block.
use vstd::prelude::*;

verus! {

/// Number of bytes in the calibration block.
pub const CALIBRATION_LEN: usize = 24;

/// Factory trim coefficients of temperature (`T1`..`T3`) and pressure
/// (`P1`..`P9`).
#[derive(Debug, Clone, Copy, PartialEq, Eq, Structural)]
pub struct Calibration {
    /// Temperature coefficient `T1`, unsigned
    pub dig_t1: u16,
    /// Temperature coefficient `T2`
    pub dig_t2: i16,
    /// Temperature coefficient `T3`
    pub dig_t3: i16,
    /// Pressure coefficient `P1`, unsigned
    pub dig_p1: u16,
    /// Pressure coefficient `P2`
    pub dig_p2: i16,
    /// Pressure coefficient `P3`
    pub dig_p3: i16,
    /// Pressure coefficient `P4`
    pub dig_p4: i16,
    /// Pressure coefficient `P5`
    pub dig_p5: i16,
    /// Pressure coefficient `P6`
    pub dig_p6: i16,
    /// Pressure coefficient `P7`
    pub dig_p7: i16,
    /// Pressure coefficient `P8`
    pub dig_p8: i16,
    /// Pressure coefficient `P9`
    pub dig_p9: i16,
}

/// Unsigned little-endian word of two bytes.
pub open spec fn word(lo: u8, hi: u8) -> u16 {
    (hi * 256 + lo) as u16
}

/// Two's-complement little-endian word of two bytes.
pub open spec fn signed_word(lo: u8, hi: u8) -> i16 {
    if hi < 128 {
        (hi * 256 + lo) as i16
    } else {
        (hi * 256 + lo - 65536) as i16
    }
}

/// Low byte of an unsigned word.
pub open spec fn low(w: u16) -> u8 {
    (w % 256) as u8
}

/// High byte of an unsigned word.
pub open spec fn high(w: u16) -> u8 {
    (w / 256) as u8
}

/// The same 16 bits read as unsigned.
pub open spec fn bits_of(v: i16) -> u16 {
    if v < 0 {
        (v + 65536) as u16
    } else {
        v as u16
    }
}

/// Coefficients decoded from a calibration block: each a little-endian word,
/// `T1` and `P1` unsigned, the others signed.
pub open spec fn calibration_of(b: Seq<u8>) -> Calibration {
    Calibration {
        dig_t1: word(b[0], b[1]),
        dig_t2: signed_word(b[2], b[3]),
        dig_t3: signed_word(b[4], b[5]),
        dig_p1: word(b[6], b[7]),
        dig_p2: signed_word(b[8], b[9]),
        dig_p3: signed_word(b[10], b[11]),
        dig_p4: signed_word(b[12], b[13]),
        dig_p5: signed_word(b[14], b[15]),
        dig_p6: signed_word(b[16], b[17]),
        dig_p7: signed_word(b[18], b[19]),
        dig_p8: signed_word(b[20], b[21]),
        dig_p9: signed_word(b[22], b[23]),
    }
}

/// The two bytes of an unsigned word, low first.
pub open spec fn word_bytes(w: u16) -> Seq<u8> {
    seq![low(w), high(w)]
}

/// The calibration block that holds these coefficients.
pub open spec fn calibration_bytes(c: Calibration) -> Seq<u8> {
    word_bytes(c.dig_t1) + word_bytes(bits_of(c.dig_t2)) + word_bytes(bits_of(c.dig_t3))
        + word_bytes(c.dig_p1) + word_bytes(bits_of(c.dig_p2)) + word_bytes(bits_of(c.dig_p3))
        + word_bytes(bits_of(c.dig_p4)) + word_bytes(bits_of(c.dig_p5)) + word_bytes(
        bits_of(c.dig_p6),
    ) + word_bytes(bits_of(c.dig_p7)) + word_bytes(bits_of(c.dig_p8)) + word_bytes(
        bits_of(c.dig_p9),
    )
}

/// Unsigned little-endian word of two bytes.
fn read_word(lo: u8, hi: u8) -> (r: u16)
    ensures
        r == word(lo, hi),
{
    (hi as u16) * 256 + (lo as u16)
}

/// Two's-complement little-endian word of two bytes.
fn read_signed_word(lo: u8, hi: u8) -> (r: i16)
    ensures
        r == signed_word(lo, hi),
{
    let w: i32 = (hi as i32) * 256 + (lo as i32);
    if hi < 128 {
        w as i16
    } else {
        (w - 65536) as i16
    }
}

/// Appends the two bytes of an unsigned word, low first.
fn push_word(out: &mut Vec<u8>, w: u16)
    ensures
        final(out)@ == old(out)@ + word_bytes(w),
{
    out.push((w % 256) as u8);
    out.push((w / 256) as u8);
    assert(final(out)@ =~= old(out)@ + word_bytes(w));
}

/// The same 16 bits read as unsigned.
fn signed_bits(v: i16) -> (r: u16)
    ensures
        r == bits_of(v),
{
    if v < 0 {
        ((v as i32) + 65536) as u16
    } else {
        v as u16
    }
}

impl Calibration {
    /// All coefficients zero: the store before a calibration block is read.
    pub fn zero() -> (r: Calibration)
        ensures
            r == Calibration::zero_spec(),
    {
        Calibration {
            dig_t1: 0,
            dig_t2: 0,
            dig_t3: 0,
            dig_p1: 0,
            dig_p2: 0,
            dig_p3: 0,
            dig_p4: 0,
            dig_p5: 0,
            dig_p6: 0,
            dig_p7: 0,
            dig_p8: 0,
            dig_p9: 0,
        }
    }

    /// All coefficients zero.
    pub open spec fn zero_spec() -> Calibration {
        Calibration {
            dig_t1: 0,
            dig_t2: 0,
            dig_t3: 0,
            dig_p1: 0,
            dig_p2: 0,
            dig_p3: 0,
            dig_p4: 0,
            dig_p5: 0,
            dig_p6: 0,
            dig_p7: 0,
            dig_p8: 0,
            dig_p9: 0,
        }
    }

    /// Decodes a 24-byte calibration block.
    pub fn from_bytes(data: &[u8]) -> (r: Calibration)
        requires
            data@.len() == CALIBRATION_LEN,
        ensures
            r == calibration_of(data@),
    {
        Calibration {
            dig_t1: read_word(data[0], data[1]),
            dig_t2: read_signed_word(data[2], data[3]),
            dig_t3: read_signed_word(data[4], data[5]),
            dig_p1: read_word(data[6], data[7]),
            dig_p2: read_signed_word(data[8], data[9]),
            dig_p3: read_signed_word(data[10], data[11]),
            dig_p4: read_signed_word(data[12], data[13]),
            dig_p5: read_signed_word(data[14], data[15]),
            dig_p6: read_signed_word(data[16], data[17]),
            dig_p7: read_signed_word(data[18], data[19]),
            dig_p8: read_signed_word(data[20], data[21]),
            dig_p9: read_signed_word(data[22], data[23]),
        }
    }

    /// Encodes the coefficients as a calibration block.
    pub fn to_bytes(&self) -> (r: Vec<u8>)
        ensures
            r@ == calibration_bytes(*self),
            r@.len() == CALIBRATION_LEN,
    {
        let mut out: Vec<u8> = Vec::new();
        push_word(&mut out, self.dig_t1);
        push_word(&mut out, signed_bits(self.dig_t2));
        push_word(&mut out, signed_bits(self.dig_t3));
        push_word(&mut out, self.dig_p1);
        push_word(&mut out, signed_bits(self.dig_p2));
        push_word(&mut out, signed_bits(self.dig_p3));
        push_word(&mut out, signed_bits(self.dig_p4));
        push_word(&mut out, signed_bits(self.dig_p5));
        push_word(&mut out, signed_bits(self.dig_p6));
        push_word(&mut out, signed_bits(self.dig_p7));
        push_word(&mut out, signed_bits(self.dig_p8));
        push_word(&mut out, signed_bits(self.dig_p9));
        out
    }
}

proof fn lemma_word_bytes(lo: u8, hi: u8)
    ensures
        word_bytes(word(lo, hi)) == seq![lo, hi],
        word_bytes(bits_of(signed_word(lo, hi))) == seq![lo, hi],
{
    assert(word_bytes(word(lo, hi)) =~= seq![lo, hi]);
    assert(word_bytes(bits_of(signed_word(lo, hi))) =~= seq![lo, hi]);
}

/// Decoding any 24-byte block into the coefficients and encoding them again
/// gives back the same bytes.
pub proof fn lemma_calibration_round_trip(b: Seq<u8>)
    requires
        b.len() == CALIBRATION_LEN,
    ensures
        calibration_bytes(calibration_of(b)) == b,
{
    lemma_word_bytes(b[0], b[1]);
    lemma_word_bytes(b[2], b[3]);
    lemma_word_bytes(b[4], b[5]);
    lemma_word_bytes(b[6], b[7]);
    lemma_word_bytes(b[8], b[9]);
    lemma_word_bytes(b[10], b[11]);
    lemma_word_bytes(b[12], b[13]);
    lemma_word_bytes(b[14], b[15]);
    lemma_word_bytes(b[16], b[17]);
    lemma_word_bytes(b[18], b[19]);
    lemma_word_bytes(b[20], b[21]);
    lemma_word_bytes(b[22], b[23]);
    assert(calibration_bytes(calibration_of(b)) =~= b);
}

} // verus!
