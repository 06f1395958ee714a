//! Fixed-point temperature compensation.
//!
//! The sequence is the sensor's reference algorithm in 32-bit signed
//! arithmetic: shifts to the right are arithmetic (they round toward minus
//! infinity), and products and sums wrap at 32 bits, so no input traps.
use vstd::prelude::*;
use crate::calibration::Calibration;

verus! {

/// Number of bytes in the pressure and temperature data block.
pub const DATA_LEN: usize = 6;

/// Raw 20-bit temperature reading: bytes 3, 4 and the high half of byte 5 of
/// the data block, most significant first.
pub open spec fn raw_of(b: Seq<u8>) -> i32 {
    (b[3] * 4096 + b[4] * 16 + b[5] / 16) as i32
}

/// Fine temperature: the reference sequence
/// `v1 = ((raw >> 3) - (T1 << 1)) * T2 >> 11`,
/// `v2 = ((((raw >> 4) - T1) * ((raw >> 4) - T1)) >> 12) * T3 >> 14`,
/// `fine = v1 + v2`.
pub open spec fn fine_of(raw: i32, c: Calibration) -> i32 {
    let t1 = c.dig_t1 as i32;
    let v1 = (raw >> 3u32).wrapping_sub((t1 * 2) as i32).wrapping_mul(c.dig_t2 as i32) >> 11u32;
    let d = (raw >> 4u32).wrapping_sub(t1);
    let v2 = (d.wrapping_mul(d) >> 12u32).wrapping_mul(c.dig_t3 as i32) >> 14u32;
    v1.wrapping_add(v2)
}

/// Temperature in hundredths of a degree Celsius: `(fine * 5 + 128) >> 8`.
pub open spec fn centi_of(fine: i32) -> i32 {
    fine.wrapping_mul(5).wrapping_add(128) >> 8u32
}

/// Reconstructs the raw temperature reading from a 6-byte data block.
pub fn raw_temperature(data: &[u8]) -> (r: i32)
    requires
        data@.len() == DATA_LEN,
    ensures
        r == raw_of(data@),
        0 <= r < 0x100000,
{
    (data[3] as i32) * 4096 + (data[4] as i32) * 16 + (data[5] as i32) / 16
}

/// Fine temperature of a raw reading under the given coefficients.
pub fn fine_temperature(raw: i32, cal: &Calibration) -> (r: i32)
    ensures
        r == fine_of(raw, *cal),
{
    let t1 = cal.dig_t1 as i32;
    let v1 = (raw >> 3u32).wrapping_sub(t1 * 2).wrapping_mul(cal.dig_t2 as i32) >> 11u32;
    let d = (raw >> 4u32).wrapping_sub(t1);
    let v2 = (d.wrapping_mul(d) >> 12u32).wrapping_mul(cal.dig_t3 as i32) >> 14u32;
    v1.wrapping_add(v2)
}

/// Temperature in hundredths of a degree Celsius of a fine temperature.
pub fn centidegrees(fine: i32) -> (r: i32)
    ensures
        r == centi_of(fine),
{
    fine.wrapping_mul(5).wrapping_add(128) >> 8u32
}

/// Fine temperature and hundredths of a degree of a 6-byte data block.
pub fn temperature_of_block(data: &[u8], cal: &Calibration) -> (r: (i32, i32))
    requires
        data@.len() == DATA_LEN,
    ensures
        r.0 == fine_of(raw_of(data@), *cal),
        r.1 == centi_of(r.0),
{
    let raw = raw_temperature(data);
    let fine = fine_temperature(raw, cal);
    (fine, centidegrees(fine))
}

} // verus!
