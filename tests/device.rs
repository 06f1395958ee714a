use std::cell::RefCell;
use std::rc::Rc;

use bmp280::calibration::Calibration;
use bmp280::driver::{Transport, BMP280, DEFAULT_ADDRESS};
use bmp280::fields::{Config, Control, Filter, Oversampling, PowerMode, Standby, Status};

/// A register file behind a bus; it records every request it is sent.
struct FakeBus {
    regs: [u8; 256],
    log: Rc<RefCell<Vec<(u8, Vec<u8>)>>>,
    fail: bool,
}

impl Transport for FakeBus {
    type Error = ();

    fn write_read(&mut self, address: u8, request: &[u8], response: &mut [u8]) -> Result<(), ()> {
        self.log.borrow_mut().push((address, request.to_vec()));
        if self.fail {
            return Err(());
        }
        let start = request[0] as usize;
        if request.len() == 2 {
            self.regs[start] = request[1];
        }
        for (i, byte) in response.iter_mut().enumerate() {
            *byte = self.regs[(start + i) % 256];
        }
        Ok(())
    }
}

fn calibration_block() -> [u8; 24] {
    let mut b = [0u8; 24];
    b[0] = 0x70;
    b[1] = 0x6B;
    b[2] = 0x43;
    b[3] = 0x67;
    b[4] = 0x18;
    b[5] = 0xFC;
    b[6] = 0x7D;
    b[7] = 0x8E;
    b
}

fn bus(id: u8) -> (FakeBus, Rc<RefCell<Vec<(u8, Vec<u8>)>>>) {
    let mut regs = [0u8; 256];
    regs[0xD0] = id;
    regs[0x88..0x88 + 24].copy_from_slice(&calibration_block());
    regs[0xFA] = 0x7E;
    regs[0xFB] = 0xED;
    regs[0xFC] = 0x00;
    let log = Rc::new(RefCell::new(Vec::new()));
    (FakeBus { regs, log: log.clone(), fail: false }, log)
}

#[test]
fn matching_identification_loads_calibration() {
    let (b, log) = bus(0x58);
    let chip = BMP280::new(b).ok().unwrap();
    assert_eq!(chip.calibration(), Calibration::from_bytes(&calibration_block()));
    assert_ne!(chip.calibration(), Calibration::zero());
    let log = log.borrow();
    assert_eq!(log.len(), 2);
    assert_eq!(log[0], (DEFAULT_ADDRESS, vec![0xD0]));
    assert_eq!(log[1], (DEFAULT_ADDRESS, vec![0x88]));
}

#[test]
fn other_identification_keeps_zero_calibration() {
    for id in [0x00u8, 0x57, 0x59, 0x60, 0xFF] {
        let (b, log) = bus(id);
        let chip = BMP280::new_with_address(b, 0x77);
        assert!(chip.is_ok());
        let chip = chip.ok().unwrap();
        assert_eq!(chip.calibration(), Calibration::zero());
        assert_eq!(log.borrow().as_slice(), &[(0x77u8, vec![0xD0u8])]);
    }
}

#[test]
fn temperature_from_device() {
    let (b, log) = bus(0x58);
    let mut chip = BMP280::new(b).ok().unwrap();
    assert_eq!(chip.temp(), 2508);
    assert_eq!(log.borrow().last().unwrap(), &(DEFAULT_ADDRESS, vec![0xF7u8]));
}

#[test]
fn failing_bus_reads_zero_and_constructs() {
    let (mut b, log) = bus(0x58);
    b.fail = true;
    let mut chip = BMP280::new(b).ok().unwrap();
    assert_eq!(chip.calibration(), Calibration::zero());
    assert_eq!(chip.id(), 0);
    assert_eq!(chip.temp(), 0);
    assert_eq!(chip.status(), Status { measuring: false, im_update: false });
    assert_eq!(chip.config(), Config { t_sb: Standby::ms0_5, filter: Filter::off });
    assert_eq!(log.borrow().len(), 5);
}

#[test]
fn config_written_then_read() {
    let (b, log) = bus(0x58);
    let mut chip = BMP280::new(b).ok().unwrap();
    let c = Config { t_sb: Standby::ms500, filter: Filter::c8 };
    chip.set_config(c);
    assert_eq!(log.borrow().last().unwrap(), &(DEFAULT_ADDRESS, vec![0xF5u8, 0b100_011_00]));
    assert_eq!(chip.config(), c);
}

#[test]
fn control_written_then_read() {
    let (b, log) = bus(0x58);
    let mut chip = BMP280::new(b).ok().unwrap();
    let c = Control { osrs_t: Oversampling::x4, osrs_p: Oversampling::skipped, mode: PowerMode::Forced };
    chip.set_control(c);
    assert_eq!(log.borrow().last().unwrap(), &(DEFAULT_ADDRESS, vec![0xF4u8, 0b011_000_01]));
    assert_eq!(chip.control(), c);
}

#[test]
fn control_register_mode_two_reads_forced() {
    let (mut b, _log) = bus(0x58);
    b.regs[0xF4] = 0b101_010_10;
    let mut chip = BMP280::new(b).ok().unwrap();
    let c = chip.control();
    assert_eq!(c.mode, PowerMode::Forced);
    assert_eq!(c.osrs_t, Oversampling::x16);
    assert_eq!(c.osrs_p, Oversampling::x2);
}

#[test]
fn status_and_id_from_device() {
    let (mut b, _log) = bus(0x58);
    b.regs[0xF3] = 0b0000_1001;
    let mut chip = BMP280::new(b).ok().unwrap();
    assert_eq!(chip.status(), Status { measuring: true, im_update: true });
    assert_eq!(chip.id(), 0x58);
}

#[test]
fn reset_writes_magic_value() {
    let (b, log) = bus(0x58);
    let mut chip = BMP280::new(b).ok().unwrap();
    chip.reset();
    assert_eq!(log.borrow().last().unwrap(), &(DEFAULT_ADDRESS, vec![0xE0u8, 0xB6]));
}

#[test]
fn try_variants_surface_failures() {
    let (mut b, _log) = bus(0x58);
    b.fail = true;
    let mut chip = BMP280::new(b).ok().unwrap();
    assert!(chip.try_id().is_err());
    assert!(chip.try_temp().is_err());
    assert!(chip.try_status().is_err());
    assert!(chip.try_config().is_err());
    assert!(chip.try_control().is_err());
    assert!(chip.try_set_config(Config { t_sb: Standby::ms125, filter: Filter::c2 }).is_err());
    assert!(chip.try_set_control(Control { osrs_t: Oversampling::x1, osrs_p: Oversampling::x1, mode: PowerMode::Normal }).is_err());
    assert!(chip.try_reset().is_err());
}

#[test]
fn try_variants_on_working_bus() {
    let (b, log) = bus(0x58);
    let mut chip = BMP280::new(b).ok().unwrap();
    assert_eq!(chip.try_id().ok(), Some(0x58));
    assert_eq!(chip.try_temp().ok(), Some(2508));
    let c = Config { t_sb: Standby::ms2000, filter: Filter::c4 };
    assert!(chip.try_set_config(c).is_ok());
    assert_eq!(chip.try_config().ok(), Some(c));
    let k = Control { osrs_t: Oversampling::x8, osrs_p: Oversampling::x2, mode: PowerMode::Sleep };
    assert!(chip.try_set_control(k).is_ok());
    assert_eq!(chip.try_control().ok(), Some(k));
    assert_eq!(chip.try_status().ok(), Some(Status { measuring: false, im_update: false }));
    assert!(chip.try_reset().is_ok());
    assert_eq!(log.borrow().last().unwrap(), &(DEFAULT_ADDRESS, vec![0xE0u8, 0xB6]));
}

#[test]
fn set_config_writes_encoded_byte() {
    let cases = [
        (Config { t_sb: Standby::ms1000, filter: Filter::c16 }, 0xB0u8),
        (Config { t_sb: Standby::ms0_5, filter: Filter::off }, 0x00),
        (Config { t_sb: Standby::ms4000, filter: Filter::c2 }, 0xE4),
        (Config { t_sb: Standby::unknown, filter: Filter::unknown }, 0x14),
    ];
    for (c, byte) in cases {
        let (b, log) = bus(0x58);
        let mut chip = BMP280::new(b).ok().unwrap();
        chip.set_config(c);
        assert_eq!(log.borrow().len(), 3);
        assert_eq!(log.borrow().last().unwrap(), &(DEFAULT_ADDRESS, vec![0xF5u8, byte]));
    }
}

#[test]
fn set_control_writes_encoded_byte() {
    let cases = [
        (Control { osrs_t: Oversampling::x2, osrs_p: Oversampling::x16, mode: PowerMode::Normal }, 0x57u8),
        (Control { osrs_t: Oversampling::x1, osrs_p: Oversampling::x1, mode: PowerMode::Normal }, 0x27),
        (Control { osrs_t: Oversampling::skipped, osrs_p: Oversampling::skipped, mode: PowerMode::Sleep }, 0x00),
    ];
    for (c, byte) in cases {
        let (b, log) = bus(0x58);
        let mut chip = BMP280::new(b).ok().unwrap();
        chip.set_control(c);
        assert_eq!(log.borrow().len(), 3);
        assert_eq!(log.borrow().last().unwrap(), &(DEFAULT_ADDRESS, vec![0xF4u8, byte]));
    }
}

#[test]
fn failed_identification_read_skips_calibration() {
    let (mut b, log) = bus(0x58);
    b.fail = true;
    let chip = BMP280::new_with_address(b, 0x77).ok().unwrap();
    assert_eq!(chip.calibration(), Calibration::zero());
    assert_eq!(log.borrow().as_slice(), &[(0x77u8, vec![0xD0u8])]);
}
