//! Bit fields of the status, control and configuration registers.
//!
//! Fields are read with division and remainder by powers of two, which is
//! what masking and shifting a byte computes.
use vstd::prelude::*;

verus! {

/// Inactive duration between measurements in normal mode.
#[allow(non_camel_case_types)]
#[derive(Debug, Clone, Copy, PartialEq, Eq, Structural)]
pub enum Standby {
    /// 0.5 ms
    ms0_5,
    /// 62.5 ms
    ms62_5,
    /// 125 ms
    ms125,
    /// 250 ms
    ms250,
    /// 500 ms
    ms500,
    /// 1000 ms
    ms1000,
    /// 2000 ms
    ms2000,
    /// 4000 ms
    ms4000,
    /// A pattern that no standby time has.
    unknown,
}

/// Time constant of the IIR filter.
#[allow(non_camel_case_types)]
#[derive(Debug, Clone, Copy, PartialEq, Eq, Structural)]
pub enum Filter {
    /// Filter off
    off,
    /// Coefficient 2
    c2,
    /// Coefficient 4
    c4,
    /// Coefficient 8
    c8,
    /// Coefficient 16
    c16,
    /// A pattern that no filter setting has.
    unknown,
}

/// Oversampling of a measurement.
#[allow(non_camel_case_types)]
#[derive(Debug, Clone, Copy, PartialEq, Eq, Structural)]
pub enum Oversampling {
    /// Measurement skipped
    skipped,
    /// One sample
    x1,
    /// Two samples
    x2,
    /// Four samples
    x4,
    /// Eight samples
    x8,
    /// Sixteen samples
    x16,
}

/// Power mode of the device.
#[derive(Debug, Clone, Copy, PartialEq, Eq, Structural)]
pub enum PowerMode {
    /// No measurements
    Sleep,
    /// One measurement, then back to sleep
    Forced,
    /// Periodic measurements
    Normal,
}

/// Configuration register: rate and filter options of the device.
///
/// The 3-wire SPI enable bit is left out and always written as zero.
#[derive(Debug, Clone, Copy, PartialEq, Eq, Structural)]
pub struct Config {
    /// Controls inactive duration in normal mode
    pub t_sb: Standby,
    /// Controls the time constant of the IIR filter
    pub filter: Filter,
}

/// Control register: oversampling of both measurements and the power mode.
#[derive(Debug, Clone, Copy, PartialEq, Eq, Structural)]
pub struct Control {
    /// Temperature oversampling
    pub osrs_t: Oversampling,
    /// Pressure oversampling
    pub osrs_p: Oversampling,
    /// Power mode
    pub mode: PowerMode,
}

/// Status register snapshot.
#[derive(Debug, Clone, Copy, PartialEq, Eq, Structural)]
pub struct Status {
    /// A conversion is running.
    pub measuring: bool,
    /// Non-volatile calibration memory is being copied.
    pub im_update: bool,
}

/// Field value of a standby time. The sentinel's own number, 8, does not fit
/// in three bits, so it leaves the field zero.
pub open spec fn standby_code(s: Standby) -> u8 {
    match s {
        Standby::ms0_5 => 0,
        Standby::ms62_5 => 1,
        Standby::ms125 => 2,
        Standby::ms250 => 3,
        Standby::ms500 => 4,
        Standby::ms1000 => 5,
        Standby::ms2000 => 6,
        Standby::ms4000 => 7,
        Standby::unknown => 0,
    }
}

/// Standby time of a 3-bit field value.
pub open spec fn standby_of(f: u8) -> Standby {
    if f == 0 {
        Standby::ms0_5
    } else if f == 1 {
        Standby::ms62_5
    } else if f == 2 {
        Standby::ms125
    } else if f == 3 {
        Standby::ms250
    } else if f == 4 {
        Standby::ms500
    } else if f == 5 {
        Standby::ms1000
    } else if f == 6 {
        Standby::ms2000
    } else if f == 7 {
        Standby::ms4000
    } else {
        Standby::unknown
    }
}

/// Field value of a filter setting; the sentinel writes 5.
pub open spec fn filter_code(f: Filter) -> u8 {
    match f {
        Filter::off => 0,
        Filter::c2 => 1,
        Filter::c4 => 2,
        Filter::c8 => 3,
        Filter::c16 => 4,
        Filter::unknown => 5,
    }
}

/// Filter setting of a 3-bit field value: 5 to 7 are undefined.
pub open spec fn filter_of(f: u8) -> Filter {
    if f == 0 {
        Filter::off
    } else if f == 1 {
        Filter::c2
    } else if f == 2 {
        Filter::c4
    } else if f == 3 {
        Filter::c8
    } else if f == 4 {
        Filter::c16
    } else {
        Filter::unknown
    }
}

/// Field value of an oversampling setting.
pub open spec fn oversampling_code(o: Oversampling) -> u8 {
    match o {
        Oversampling::skipped => 0,
        Oversampling::x1 => 1,
        Oversampling::x2 => 2,
        Oversampling::x4 => 3,
        Oversampling::x8 => 4,
        Oversampling::x16 => 5,
    }
}

/// Oversampling of a 3-bit field value: 6 and 7 read as sixteen samples.
pub open spec fn oversampling_of(f: u8) -> Oversampling {
    if f == 0 {
        Oversampling::skipped
    } else if f == 1 {
        Oversampling::x1
    } else if f == 2 {
        Oversampling::x2
    } else if f == 3 {
        Oversampling::x4
    } else if f == 4 {
        Oversampling::x8
    } else {
        Oversampling::x16
    }
}

/// Field value of a power mode: the encoding skips 2.
pub open spec fn mode_code(m: PowerMode) -> u8 {
    match m {
        PowerMode::Sleep => 0,
        PowerMode::Forced => 1,
        PowerMode::Normal => 3,
    }
}

/// Power mode of a 2-bit field value: the undefined 2 reads as forced.
pub open spec fn mode_of(f: u8) -> PowerMode {
    if f == 0 {
        PowerMode::Sleep
    } else if f == 3 {
        PowerMode::Normal
    } else {
        PowerMode::Forced
    }
}

/// Configuration register value: bits 7-5 standby, bits 4-2 filter, the rest zero.
pub open spec fn config_byte(c: Config) -> u8 {
    (standby_code(c.t_sb) * 32 + filter_code(c.filter) * 4) as u8
}

/// Configuration held by a register value.
pub open spec fn config_of(b: u8) -> Config {
    Config { t_sb: standby_of((b / 32) as u8), filter: filter_of(((b / 4) % 8) as u8) }
}

/// Control register value: bits 7-5 and 4-2 the oversamplings, bits 1-0 the mode.
pub open spec fn control_byte(c: Control) -> u8 {
    (oversampling_code(c.osrs_t) * 32 + oversampling_code(c.osrs_p) * 4 + mode_code(
        c.mode,
    )) as u8
}

/// Control held by a register value.
pub open spec fn control_of(b: u8) -> Control {
    Control {
        osrs_t: oversampling_of((b / 32) as u8),
        osrs_p: oversampling_of(((b / 4) % 8) as u8),
        mode: mode_of((b % 4) as u8),
    }
}

/// Status held by a register value: bit 3 and bit 0.
pub open spec fn status_of(b: u8) -> Status {
    Status { measuring: (b / 8) % 2 == 1, im_update: b % 2 == 1 }
}

impl Standby {
    /// Field value written for this standby time.
    pub fn code(self) -> (r: u8)
        ensures
            r == standby_code(self),
    {
        match self {
            Standby::ms0_5 => 0,
            Standby::ms62_5 => 1,
            Standby::ms125 => 2,
            Standby::ms250 => 3,
            Standby::ms500 => 4,
            Standby::ms1000 => 5,
            Standby::ms2000 => 6,
            Standby::ms4000 => 7,
            Standby::unknown => 0,
        }
    }

    /// Standby time of a field value; values past 7 give the sentinel.
    pub fn from_code(f: u8) -> (r: Standby)
        ensures
            r == standby_of(f),
    {
        match f {
            0 => Standby::ms0_5,
            1 => Standby::ms62_5,
            2 => Standby::ms125,
            3 => Standby::ms250,
            4 => Standby::ms500,
            5 => Standby::ms1000,
            6 => Standby::ms2000,
            7 => Standby::ms4000,
            _ => Standby::unknown,
        }
    }
}

impl Filter {
    /// Field value written for this filter setting.
    pub fn code(self) -> (r: u8)
        ensures
            r == filter_code(self),
    {
        match self {
            Filter::off => 0,
            Filter::c2 => 1,
            Filter::c4 => 2,
            Filter::c8 => 3,
            Filter::c16 => 4,
            Filter::unknown => 5,
        }
    }

    /// Filter setting of a field value; undefined values give the sentinel.
    pub fn from_code(f: u8) -> (r: Filter)
        ensures
            r == filter_of(f),
    {
        match f {
            0 => Filter::off,
            1 => Filter::c2,
            2 => Filter::c4,
            3 => Filter::c8,
            4 => Filter::c16,
            _ => Filter::unknown,
        }
    }
}

impl Oversampling {
    /// Field value written for this oversampling.
    pub fn code(self) -> (r: u8)
        ensures
            r == oversampling_code(self),
    {
        match self {
            Oversampling::skipped => 0,
            Oversampling::x1 => 1,
            Oversampling::x2 => 2,
            Oversampling::x4 => 3,
            Oversampling::x8 => 4,
            Oversampling::x16 => 5,
        }
    }

    /// Oversampling of a field value; values past 5 read as sixteen samples.
    pub fn from_code(f: u8) -> (r: Oversampling)
        ensures
            r == oversampling_of(f),
    {
        match f {
            0 => Oversampling::skipped,
            1 => Oversampling::x1,
            2 => Oversampling::x2,
            3 => Oversampling::x4,
            4 => Oversampling::x8,
            _ => Oversampling::x16,
        }
    }
}

impl PowerMode {
    /// Field value written for this power mode.
    pub fn code(self) -> (r: u8)
        ensures
            r == mode_code(self),
    {
        match self {
            PowerMode::Sleep => 0,
            PowerMode::Forced => 1,
            PowerMode::Normal => 3,
        }
    }

    /// Power mode of a field value; the undefined 2 reads as forced.
    pub fn from_code(f: u8) -> (r: PowerMode)
        ensures
            r == mode_of(f),
    {
        match f {
            0 => PowerMode::Sleep,
            3 => PowerMode::Normal,
            _ => PowerMode::Forced,
        }
    }
}

impl Config {
    /// Register value for this configuration.
    pub fn to_byte(self) -> (r: u8)
        ensures
            r == config_byte(self),
    {
        self.t_sb.code() * 32 + self.filter.code() * 4
    }

    /// Configuration of a register value. Never fails: undefined filter
    /// patterns give `Filter::unknown`.
    pub fn from_byte(b: u8) -> (r: Config)
        ensures
            r == config_of(b),
            r.filter == Filter::unknown <==> (b / 4) % 8 >= 5,
            r.t_sb != Standby::unknown,
    {
        Config { t_sb: Standby::from_code(b / 32), filter: Filter::from_code((b / 4) % 8) }
    }
}

impl Control {
    /// Register value for this control setting.
    pub fn to_byte(self) -> (r: u8)
        ensures
            r == control_byte(self),
    {
        self.osrs_t.code() * 32 + self.osrs_p.code() * 4 + self.mode.code()
    }

    /// Control setting of a register value. Never fails: mode bits `0b10`
    /// read as `PowerMode::Forced`.
    pub fn from_byte(b: u8) -> (r: Control)
        ensures
            r == control_of(b),
            b % 4 == 2 ==> r.mode == PowerMode::Forced,
    {
        Control {
            osrs_t: Oversampling::from_code(b / 32),
            osrs_p: Oversampling::from_code((b / 4) % 8),
            mode: PowerMode::from_code(b % 4),
        }
    }
}

impl Status {
    /// Decodes the status register: bit 3 is `measuring`, bit 0 is `im_update`.
    pub fn from_byte(b: u8) -> (r: Status)
        ensures
            r == status_of(b),
    {
        Status { measuring: (b / 8) % 2 == 1, im_update: b % 2 == 1 }
    }
}

/// Writing a configuration and reading it back gives it again, for every
/// pair of defined standby time and filter setting.
pub proof fn lemma_config_round_trip(c: Config)
    requires
        c.t_sb != Standby::unknown,
        c.filter != Filter::unknown,
    ensures
        config_of(config_byte(c)) == c,
{
    let s = standby_code(c.t_sb);
    let f = filter_code(c.filter);
    assert((s * 32 + f * 4) as u8 == s * 32 + f * 4);
    assert((s * 32 + f * 4) / 32 == s);
    assert(((s * 32 + f * 4) / 4) % 8 == f);
}

/// Writing a control setting and reading it back gives it again.
pub proof fn lemma_control_round_trip(c: Control)
    ensures
        control_of(control_byte(c)) == c,
{
    let t = oversampling_code(c.osrs_t);
    let p = oversampling_code(c.osrs_p);
    let m = mode_code(c.mode);
    assert((t * 32 + p * 4 + m) as u8 == t * 32 + p * 4 + m);
    assert((t * 32 + p * 4 + m) / 32 == t);
    assert(((t * 32 + p * 4 + m) / 4) % 8 == p);
    assert((t * 32 + p * 4 + m) % 4 == m);
}

} // verus!
