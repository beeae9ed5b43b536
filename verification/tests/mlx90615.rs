//! MLX90615 device tests against a scripted fake bus, a fake pin and a
//! no-op delay.

use mlx9061x::mlx90615::{Register, DEV_ADDR, SLEEP_COMMAND};
use mlx9061x::{crc8, DelayMs, Error, I2cBus, Mlx9061x, OutputPin, SlaveAddr};

#[derive(Debug, Clone, PartialEq)]
enum Txn {
    Write {
        address: u8,
        bytes: Vec<u8>,
    },
    WriteRead {
        address: u8,
        out_bytes: Vec<u8>,
        response: Vec<u8>,
    },
}

/// A bus that checks each transaction against a script and hands back
/// the scripted read responses.
#[derive(Debug)]
struct FakeBus {
    expected: Vec<Txn>,
    next: usize,
}

impl FakeBus {
    fn new(expected: Vec<Txn>) -> Self {
        FakeBus { expected, next: 0 }
    }

    fn done(self) {
        assert_eq!(self.next, self.expected.len(), "not all expected transactions were issued");
    }
}

impl I2cBus for FakeBus {
    type BusError = u8;

    fn write(&mut self, address: u8, bytes: &[u8]) -> Result<(), u8> {
        assert!(self.next < self.expected.len(), "unexpected extra write");
        let t = self.expected[self.next].clone();
        self.next += 1;
        match t {
            Txn::Write { address: a, bytes: b } => {
                assert_eq!(a, address);
                assert_eq!(b.as_slice(), bytes);
                Ok(())
            }
            Txn::WriteRead { .. } => panic!("expected a write-then-read, got a write"),
        }
    }

    fn write_read(&mut self, address: u8, out_bytes: &[u8], read_len: usize) -> Result<Vec<u8>, u8> {
        assert!(self.next < self.expected.len(), "unexpected extra write_read");
        let t = self.expected[self.next].clone();
        self.next += 1;
        match t {
            Txn::WriteRead { address: a, out_bytes: o, response } => {
                assert_eq!(a, address);
                assert_eq!(o.as_slice(), out_bytes);
                assert_eq!(response.len(), read_len);
                Ok(response)
            }
            Txn::Write { .. } => panic!("expected a write, got a write-then-read"),
        }
    }
}

#[derive(Debug)]
struct NoopDelay;

impl DelayMs for NoopDelay {
    fn delay_ms(&mut self, _ms: u32) {}
}

/// A pin that records the levels it was driven to.
#[derive(Debug)]
struct FakePin {
    levels: Vec<bool>,
}

impl FakePin {
    fn new() -> Self {
        FakePin { levels: Vec::new() }
    }
}

impl OutputPin for FakePin {
    type PinError = u8;

    fn set_high(&mut self) -> Result<(), u8> {
        self.levels.push(true);
        Ok(())
    }

    fn set_low(&mut self) -> Result<(), u8> {
        self.levels.push(false);
        Ok(())
    }
}

fn new_mlx90615(expected: Vec<Txn>) -> Mlx9061x<FakeBus, mlx9061x::ic::Mlx90615> {
    Mlx9061x::new_mlx90615(FakeBus::new(expected), SlaveAddr::default(), 5).unwrap()
}

fn destroy<IC>(sensor: Mlx9061x<FakeBus, IC>) {
    sensor.destroy().done();
}

fn read_frame(register: u8, response: Vec<u8>) -> Txn {
    Txn::WriteRead {
        address: DEV_ADDR,
        out_bytes: vec![register],
        response,
    }
}

#[test]
fn mlx90615_can_change_address() {
    let mut sensor = new_mlx90615(vec![
        Txn::Write {
            address: DEV_ADDR,
            bytes: vec![Register::ADDRESS, 0, 0, 78],
        },
        Txn::Write {
            address: DEV_ADDR,
            bytes: vec![Register::ADDRESS, 0x5C, 0, 190],
        },
    ]);
    sensor
        .set_address(SlaveAddr::Alternative(0x5C), &mut NoopDelay)
        .unwrap();
    destroy(sensor);
}

#[test]
fn mlx90615_can_set_emissivity() {
    let mut sensor = new_mlx90615(vec![
        Txn::Write {
            address: DEV_ADDR,
            bytes: vec![Register::EMISSIVITY, 0, 0, 243],
        },
        Txn::Write {
            address: DEV_ADDR,
            bytes: vec![Register::EMISSIVITY, 205, 44, 51],
        },
    ]);
    let encoded = (0.7f32 * 16384.0 + 0.5) as u16;
    sensor.set_emissivity_raw(encoded, &mut NoopDelay).unwrap();
    destroy(sensor);
}

#[test]
fn mlx90615_set_emissivity_rejects_words_above_full_scale() {
    let mut sensor = new_mlx90615(vec![]);
    let r = sensor.set_emissivity_raw(16385, &mut NoopDelay);
    assert!(matches!(r, Err(Error::InvalidInputData)));
    destroy(sensor);
}

#[test]
fn mlx90615_can_get_id() {
    let mut sensor = new_mlx90615(vec![
        read_frame(Register::ID0, vec![0x34, 0x12, 6]),
        read_frame(Register::ID0 + 1, vec![0x78, 0x56, 108]),
    ]);
    assert_eq!(0x1234_5678, sensor.device_id().unwrap());
    destroy(sensor);
}

#[test]
fn mlx90615_can_sleep() {
    let mut sensor = new_mlx90615(vec![Txn::Write {
        address: DEV_ADDR,
        bytes: vec![SLEEP_COMMAND, 109],
    }]);
    sensor.sleep().unwrap();
    destroy(sensor);
}

#[test]
fn mlx90615_can_wake() {
    let mut scl = FakePin::new();
    let mut delay = NoopDelay;
    mlx9061x::wake_mlx90615(&mut scl, &mut delay).unwrap();
    assert_eq!(scl.levels, vec![false, true]);
}

#[test]
fn mlx90615_read_ta_as_int() {
    let mut sensor = new_mlx90615(vec![read_frame(Register::TA, vec![0x26, 0x3A, 0xBA])]);
    assert_eq!(sensor.ambient_temperature_as_int().unwrap(), 0x18);
    destroy(sensor);
}

#[test]
fn mlx90615_read_object_temp_as_int() {
    let mut sensor = new_mlx90615(vec![read_frame(Register::TOBJ, vec![0x26, 0x3A, 0xAC])]);
    assert_eq!(sensor.object_temperature_as_int().unwrap(), 0x18);
    destroy(sensor);
}

#[test]
fn mlx90615_read_raw_ir() {
    let mut sensor = new_mlx90615(vec![read_frame(Register::RAW_IR, vec![0x26, 0x3A, 0x80])]);
    assert_eq!(sensor.raw_ir().unwrap(), 0x3A26);
    destroy(sensor);
}

#[test]
fn mlx90615_read_emiss() {
    // Raw emissivity word 0x2CCD = 11469, i.e. a ratio of 0.7.
    let mut sensor = new_mlx90615(vec![read_frame(Register::EMISSIVITY, vec![205, 44, 235])]);
    let raw = sensor.emissivity_raw().unwrap();
    assert_eq!(raw, 0x2CCD);
    let ratio = f32::from(raw) / 16384.0;
    assert!((ratio - 0.1) < 0.7);
    assert!((ratio + 0.1) > 0.7);
    destroy(sensor);
}

#[test]
fn mlx90615_reads_use_the_resolved_alternative_address() {
    // A handle created with an alternative address issues its
    // transactions, and frames its checksums, with exactly that address.
    for address in 1..=127u8 {
        let pec = crc8(&[address << 1, Register::RAW_IR, (address << 1) + 1, 0x26, 0x3A]);
        let bus = FakeBus::new(vec![Txn::WriteRead {
            address,
            out_bytes: vec![Register::RAW_IR],
            response: vec![0x26, 0x3A, pec],
        }]);
        let mut sensor =
            Mlx9061x::new_mlx90615(bus, SlaveAddr::Alternative(address), 5).unwrap();
        assert_eq!(sensor.raw_ir().unwrap(), 0x3A26);
        destroy(sensor);
    }
}
