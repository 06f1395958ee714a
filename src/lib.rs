//! Driver for the BMP280 pressure and temperature sensor: register field
//! codecs, calibration decoding, fixed-point temperature compensation, and a
//! device handle over a caller-supplied two-wire transport.
pub mod calibration;
pub mod compensation;
pub mod driver;
pub mod fields;
