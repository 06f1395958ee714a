//! The device handle: register transactions over a caller-supplied transport.
//!
//! Every transaction is attempted once. Its error is discarded and the
//! received bytes are decoded as they stand: the receive buffers start zeroed.
use vstd::prelude::*;
use crate::calibration::{Calibration, calibration_of, CALIBRATION_LEN};
use crate::compensation::{centi_of, fine_of, raw_of, temperature_of_block, DATA_LEN};
use crate::fields::{
    config_byte,
    config_of,
    control_byte,
    control_of,
    status_of,
    Config,
    Control,
    Status,
};

verus! {

/// The default address of the device.
pub const DEFAULT_ADDRESS: u8 = 0x76;

/// The identification byte of the device.
pub const CHIP_ID: u8 = 0x58;

/// The value that, written to the reset register, resets the device.
pub const RESET_VALUE: u8 = 0xB6;

/// Identification register.
pub const REG_ID: u8 = 0xD0;

/// Soft-reset register.
pub const REG_RESET: u8 = 0xE0;

/// Status register.
pub const REG_STATUS: u8 = 0xF3;

/// Control (measurement) register.
pub const REG_CTRL_MEAS: u8 = 0xF4;

/// Configuration register.
pub const REG_CONFIG: u8 = 0xF5;

/// First register of the pressure and temperature data block.
pub const REG_PRESS: u8 = 0xF7;

/// First register of the calibration block.
pub const REG_CALIB00: u8 = 0x88;

/// One bus transaction: the device address, the bytes written, the response
/// buffer as it was handed to the transport, the same buffer afterwards, and
/// whether the transport reported success.
pub type Transaction = (u8, Seq<u8>, Seq<u8>, Seq<u8>, bool);

/// A buffer of `len` zero bytes.
pub open spec fn zeros(len: nat) -> Seq<u8> {
    Seq::new(len, |i: int| 0u8)
}

/// A two-wire bus: one combined transaction that writes request bytes to a
/// device, then reads response bytes from it.
pub trait Transport {
    /// What a failed transaction reports.
    type Error;

    /// Writes `request` to the device at the 7-bit `address`, then fills
    /// `response` from it. Nothing is assumed of the bytes or the outcome;
    /// the one `ensures` holds of every impl, since a slice's length cannot
    /// change through `&mut`.
    fn write_read(&mut self, address: u8, request: &[u8], response: &mut [u8]) -> (r: Result<
        (),
        Self::Error,
    >)
        ensures
            final(response)@.len() == old(response)@.len(),
    ;
}

/// BMP280 driver.
///
/// `log` records every transaction the driver makes; it is appended in one
/// place only, right after the transport call in `transfer`.
pub struct BMP280<I2C: Transport> {
    com: I2C,
    addr: u8,
    cal: Calibration,
    t_fine: i32,
    identification: Ghost<u8>,
    log: Ghost<Seq<Transaction>>,
}

impl<I2C: Transport> BMP280<I2C> {
    /// Device address that every transaction goes to.
    pub closed spec fn spec_address(&self) -> u8 {
        self.addr
    }

    /// Calibration coefficients held.
    pub closed spec fn spec_calibration(&self) -> Calibration {
        self.cal
    }

    /// Fine temperature of the last conversion, zero before the first.
    pub closed spec fn spec_fine(&self) -> i32 {
        self.t_fine
    }

    /// Identification byte that the device gave at construction.
    pub closed spec fn spec_identification(&self) -> u8 {
        self.identification@
    }

    /// The transactions this driver has made on its bus, oldest first.
    pub closed spec fn spec_transactions(&self) -> Seq<Transaction> {
        self.log@
    }

    /// Bytes received in the latest transaction.
    pub open spec fn last_received(&self) -> Seq<u8> {
        self.spec_transactions().last().3
    }

    /// Whether the transport reported success for the latest transaction.
    pub open spec fn last_succeeded(&self) -> bool {
        self.spec_transactions().last().4
    }

    /// Address, coefficients, fine temperature and identification are those
    /// of `other`.
    pub open spec fn unchanged_from(&self, other: Self) -> bool {
        &&& self.spec_address() == other.spec_address()
        &&& self.spec_calibration() == other.spec_calibration()
        &&& self.spec_fine() == other.spec_fine()
        &&& self.spec_identification() == other.spec_identification()
    }

    /// The bus log is that of `before` with one more transaction: to the
    /// driver's address, writing `request`, with a buffer of `len` zero bytes
    /// handed in for the response.
    pub open spec fn one_more(&self, before: Self, request: Seq<u8>, len: nat) -> bool {
        &&& self.spec_transactions().len() == before.spec_transactions().len() + 1
        &&& self.spec_transactions().drop_last() == before.spec_transactions()
        &&& self.spec_transactions().last().0 == before.spec_address()
        &&& self.spec_transactions().last().1 == request
        &&& self.spec_transactions().last().2 == zeros(len)
        &&& self.last_received().len() == len
    }

    /// What construction at `addr` leaves: one read of the identification
    /// register, and only when it gave the device's identification, one read
    /// of the 24-byte calibration block, decoded into the coefficients;
    /// otherwise the coefficients stay zero.
    pub open spec fn constructed(&self, addr: u8) -> bool {
        let n = 0int;
        let id = self.spec_identification();
        let t = self.spec_transactions();
        &&& self.spec_address() == addr
        &&& self.spec_fine() == 0
        &&& t.len() == if id == CHIP_ID {
            n + 2
        } else {
            n + 1
        }
        &&& t[n].0 == addr
        &&& t[n].1 == seq![REG_ID]
        &&& t[n].2 == zeros(1)
        &&& t[n].3 == seq![id]
        &&& id == CHIP_ID ==> {
            &&& t[n + 1].0 == addr
            &&& t[n + 1].1 == seq![REG_CALIB00]
            &&& t[n + 1].2 == zeros(CALIBRATION_LEN as nat)
            &&& t[n + 1].3.len() == CALIBRATION_LEN
            &&& self.spec_calibration() == calibration_of(t[n + 1].3)
        }
        &&& id != CHIP_ID ==> self.spec_calibration() == Calibration::zero_spec()
    }

    /// Creates a driver for the device at `addr`. If the device identifies
    /// itself as a BMP280, its calibration block is read; otherwise the
    /// coefficients stay zero. Never fails.
    pub fn new_with_address(i2c: I2C, addr: u8) -> (r: Result<BMP280<I2C>, I2C::Error>)
        ensures
            r is Ok,
            r matches Ok(chip) ==> chip.constructed(addr),
    {
        let mut chip = BMP280 {
            com: i2c,
            addr,
            cal: Calibration::zero(),
            t_fine: 0,
            identification: Ghost(0),
            log: Ghost(Seq::empty()),
        };
        let id = chip.id();
        chip.identification = Ghost(id);
        let ghost after_id = chip.spec_transactions();
        assert(chip.last_received() =~= seq![id]);
        assert(after_id.len() == 1);
        if id == CHIP_ID {
            chip.read_calibration();
            assert(chip.spec_transactions() =~= after_id.push(chip.spec_transactions().last()));
        }
        Ok(chip)
    }

    /// Creates a driver for the device at the default address.
    pub fn new(i2c: I2C) -> (r: Result<BMP280<I2C>, I2C::Error>)
        ensures
            r is Ok,
            r matches Ok(chip) ==> chip.constructed(DEFAULT_ADDRESS),
    {
        Self::new_with_address(i2c, DEFAULT_ADDRESS)
    }

    /// One transaction: writes `request`, reads `len` bytes into a zeroed
    /// buffer, and hands back the buffer with the transport's outcome.
    fn transfer(&mut self, request: &[u8], len: usize) -> (r: (Vec<u8>, Result<(), I2C::Error>))
        ensures
            final(self).unchanged_from(*old(self)),
            final(self).one_more(*old(self), request@, len as nat),
            r.0@ == final(self).last_received(),
            final(self).last_succeeded() == r.1 is Ok,
    {
        let mut data: Vec<u8> = vec![0u8; len];
        let ghost handed = data@;
        assert(handed =~= zeros(len as nat));
        let res = self.com.write_read(self.addr, request, data.as_mut_slice());
        self.log = Ghost(self.log@.push((self.addr, request@, handed, data@, res is Ok)));
        assert(self.spec_transactions().drop_last() =~= old(self).spec_transactions());
        (data, res)
    }

    /// One transaction that writes the register `reg` and reads `len` bytes.
    fn read_register(&mut self, reg: u8, len: usize) -> (r: (Vec<u8>, Result<(), I2C::Error>))
        ensures
            final(self).unchanged_from(*old(self)),
            final(self).one_more(*old(self), seq![reg], len as nat),
            r.0@ == final(self).last_received(),
            final(self).last_succeeded() == r.1 is Ok,
    {
        let request: Vec<u8> = vec![reg];
        assert(request@ =~= seq![reg]);
        self.transfer(request.as_slice(), len)
    }

    /// Reads the 24-byte calibration block and decodes it.
    fn read_calibration(&mut self)
        ensures
            final(self).spec_address() == old(self).spec_address(),
            final(self).spec_fine() == old(self).spec_fine(),
            final(self).spec_identification() == old(self).spec_identification(),
            final(self).one_more(*old(self), seq![REG_CALIB00], CALIBRATION_LEN as nat),
            final(self).spec_calibration() == calibration_of(final(self).last_received()),
    {
        let (data, _) = self.read_register(REG_CALIB00, CALIBRATION_LEN);
        self.cal = Calibration::from_bytes(data.as_slice());
    }

    /// Coefficients read at construction.
    pub fn calibration(&self) -> (r: Calibration)
        ensures
            r == self.spec_calibration(),
    {
        self.cal
    }

    /// Reads the 6-byte data block and returns the temperature in hundredths
    /// of a degree Celsius; the fine temperature is kept.
    pub fn temp(&mut self) -> (r: i32)
        ensures
            final(self).spec_address() == old(self).spec_address(),
            final(self).spec_calibration() == old(self).spec_calibration(),
            final(self).spec_identification() == old(self).spec_identification(),
            final(self).one_more(*old(self), seq![REG_PRESS], DATA_LEN as nat),
            final(self).spec_fine() == fine_of(
                raw_of(final(self).last_received()),
                old(self).spec_calibration(),
            ),
            r == centi_of(final(self).spec_fine()),
    {
        let (data, _) = self.read_register(REG_PRESS, DATA_LEN);
        let (fine, centi) = temperature_of_block(data.as_slice(), &self.cal);
        self.t_fine = fine;
        centi
    }

    /// As `temp`, but a failed transaction is returned as the error and
    /// leaves the fine temperature as it was.
    pub fn try_temp(&mut self) -> (r: Result<i32, I2C::Error>)
        ensures
            final(self).spec_address() == old(self).spec_address(),
            final(self).spec_calibration() == old(self).spec_calibration(),
            final(self).spec_identification() == old(self).spec_identification(),
            final(self).one_more(*old(self), seq![REG_PRESS], DATA_LEN as nat),
            r is Err <==> !final(self).last_succeeded(),
            r is Err ==> final(self).spec_fine() == old(self).spec_fine(),
            r is Ok ==> final(self).spec_fine() == fine_of(
                raw_of(final(self).last_received()),
                old(self).spec_calibration(),
            ),
            r matches Ok(centi) ==> centi == centi_of(final(self).spec_fine()),
    {
        let (data, res) = self.read_register(REG_PRESS, DATA_LEN);
        match res {
            Ok(()) => {
                let (fine, centi) = temperature_of_block(data.as_slice(), &self.cal);
                self.t_fine = fine;
                Ok(centi)
            },
            Err(e) => Err(e),
        }
    }

    /// Reads the configuration register.
    pub fn config(&mut self) -> (r: Config)
        ensures
            final(self).unchanged_from(*old(self)),
            final(self).one_more(*old(self), seq![REG_CONFIG], 1),
            r == config_of(final(self).last_received()[0]),
    {
        let b = self.read_byte(REG_CONFIG);
        Config::from_byte(b)
    }

    /// As `config`, with a failed transaction returned as the error.
    pub fn try_config(&mut self) -> (r: Result<Config, I2C::Error>)
        ensures
            final(self).unchanged_from(*old(self)),
            final(self).one_more(*old(self), seq![REG_CONFIG], 1),
            r is Err <==> !final(self).last_succeeded(),
            r matches Ok(c) ==> c == config_of(final(self).last_received()[0]),
    {
        match self.try_read_byte(REG_CONFIG) {
            Ok(b) => Ok(Config::from_byte(b)),
            Err(e) => Err(e),
        }
    }

    /// Writes the configuration register.
    pub fn set_config(&mut self, new: Config)
        ensures
            final(self).unchanged_from(*old(self)),
            final(self).one_more(*old(self), seq![REG_CONFIG, config_byte(new)], 1),
    {
        let _ = self.try_write_byte(REG_CONFIG, new.to_byte());
    }

    /// As `set_config`, with a failed transaction returned as the error.
    pub fn try_set_config(&mut self, new: Config) -> (r: Result<(), I2C::Error>)
        ensures
            final(self).unchanged_from(*old(self)),
            final(self).one_more(*old(self), seq![REG_CONFIG, config_byte(new)], 1),
            r is Err <==> !final(self).last_succeeded(),
    {
        self.try_write_byte(REG_CONFIG, new.to_byte())
    }

    /// Writes the control register.
    pub fn set_control(&mut self, new: Control)
        ensures
            final(self).unchanged_from(*old(self)),
            final(self).one_more(*old(self), seq![REG_CTRL_MEAS, control_byte(new)], 1),
    {
        let _ = self.try_write_byte(REG_CTRL_MEAS, new.to_byte());
    }

    /// As `set_control`, with a failed transaction returned as the error.
    pub fn try_set_control(&mut self, new: Control) -> (r: Result<(), I2C::Error>)
        ensures
            final(self).unchanged_from(*old(self)),
            final(self).one_more(*old(self), seq![REG_CTRL_MEAS, control_byte(new)], 1),
            r is Err <==> !final(self).last_succeeded(),
    {
        self.try_write_byte(REG_CTRL_MEAS, new.to_byte())
    }

    /// Reads the control register.
    pub fn control(&mut self) -> (r: Control)
        ensures
            final(self).unchanged_from(*old(self)),
            final(self).one_more(*old(self), seq![REG_CTRL_MEAS], 1),
            r == control_of(final(self).last_received()[0]),
    {
        let b = self.read_byte(REG_CTRL_MEAS);
        Control::from_byte(b)
    }

    /// As `control`, with a failed transaction returned as the error.
    pub fn try_control(&mut self) -> (r: Result<Control, I2C::Error>)
        ensures
            final(self).unchanged_from(*old(self)),
            final(self).one_more(*old(self), seq![REG_CTRL_MEAS], 1),
            r is Err <==> !final(self).last_succeeded(),
            r matches Ok(c) ==> c == control_of(final(self).last_received()[0]),
    {
        match self.try_read_byte(REG_CTRL_MEAS) {
            Ok(b) => Ok(Control::from_byte(b)),
            Err(e) => Err(e),
        }
    }

    /// Reads the status register.
    pub fn status(&mut self) -> (r: Status)
        ensures
            final(self).unchanged_from(*old(self)),
            final(self).one_more(*old(self), seq![REG_STATUS], 1),
            r == status_of(final(self).last_received()[0]),
    {
        let b = self.read_byte(REG_STATUS);
        Status::from_byte(b)
    }

    /// As `status`, with a failed transaction returned as the error.
    pub fn try_status(&mut self) -> (r: Result<Status, I2C::Error>)
        ensures
            final(self).unchanged_from(*old(self)),
            final(self).one_more(*old(self), seq![REG_STATUS], 1),
            r is Err <==> !final(self).last_succeeded(),
            r matches Ok(s) ==> s == status_of(final(self).last_received()[0]),
    {
        match self.try_read_byte(REG_STATUS) {
            Ok(b) => Ok(Status::from_byte(b)),
            Err(e) => Err(e),
        }
    }

    /// Reads the identification register.
    pub fn id(&mut self) -> (r: u8)
        ensures
            final(self).unchanged_from(*old(self)),
            final(self).one_more(*old(self), seq![REG_ID], 1),
            r == final(self).last_received()[0],
    {
        self.read_byte(REG_ID)
    }

    /// As `id`, with a failed transaction returned as the error.
    pub fn try_id(&mut self) -> (r: Result<u8, I2C::Error>)
        ensures
            final(self).unchanged_from(*old(self)),
            final(self).one_more(*old(self), seq![REG_ID], 1),
            r is Err <==> !final(self).last_succeeded(),
            r matches Ok(b) ==> b == final(self).last_received()[0],
    {
        self.try_read_byte(REG_ID)
    }

    /// Software reset, as at power-on.
    pub fn reset(&mut self)
        ensures
            final(self).unchanged_from(*old(self)),
            final(self).one_more(*old(self), seq![REG_RESET, RESET_VALUE], 1),
    {
        let _ = self.try_write_byte(REG_RESET, RESET_VALUE);
    }

    /// As `reset`, with a failed transaction returned as the error.
    pub fn try_reset(&mut self) -> (r: Result<(), I2C::Error>)
        ensures
            final(self).unchanged_from(*old(self)),
            final(self).one_more(*old(self), seq![REG_RESET, RESET_VALUE], 1),
            r is Err <==> !final(self).last_succeeded(),
    {
        self.try_write_byte(REG_RESET, RESET_VALUE)
    }

    fn try_write_byte(&mut self, reg: u8, byte: u8) -> (r: Result<(), I2C::Error>)
        ensures
            final(self).unchanged_from(*old(self)),
            final(self).one_more(*old(self), seq![reg, byte], 1),
            r is Err <==> !final(self).last_succeeded(),
    {
        let request: Vec<u8> = vec![reg, byte];
        assert(request@ =~= seq![reg, byte]);
        let (_, res) = self.transfer(request.as_slice(), 1);
        res
    }

    fn read_byte(&mut self, reg: u8) -> (r: u8)
        ensures
            final(self).unchanged_from(*old(self)),
            final(self).one_more(*old(self), seq![reg], 1),
            r == final(self).last_received()[0],
    {
        let (data, _) = self.read_register(reg, 1);
        data[0]
    }

    fn try_read_byte(&mut self, reg: u8) -> (r: Result<u8, I2C::Error>)
        ensures
            final(self).unchanged_from(*old(self)),
            final(self).one_more(*old(self), seq![reg], 1),
            r is Err <==> !final(self).last_succeeded(),
            r matches Ok(b) ==> b == final(self).last_received()[0],
    {
        let (data, res) = self.read_register(reg, 1);
        match res {
            Ok(()) => Ok(data[0]),
            Err(e) => Err(e),
        }
    }
}

} // verus!
