use icm42670::{
    signed, AccelRange, Address, BusOp, Icm42670, PowerMode, Reg, Request, SensorError, Step,
    Transfer,
};

/// A simulated device: a primary bank, three shadow banks behind the
/// gateway, and a clock that reports ready after a number of polls.
struct Sim {
    bank0: [u8; 128],
    shadow: [[u8; 128]; 3],
    not_ready: usize,
    ops: Vec<BusOp>,
}

fn shadow_index(code: u8) -> usize {
    match code {
        0x28 => 1,
        0x50 => 2,
        _ => 0,
    }
}

impl Sim {
    fn new() -> Sim {
        Sim { bank0: [0; 128], shadow: [[0; 128]; 3], not_ready: 0, ops: Vec::new() }
    }

    fn read(&mut self, addr: u8) -> u8 {
        if addr == 0x00 {
            if self.not_ready > 0 {
                self.not_ready -= 1;
                0x00
            } else {
                0x08
            }
        } else if addr == 0x7E {
            let bank = shadow_index(self.bank0[0x7C]);
            self.shadow[bank][self.bank0[0x7D] as usize]
        } else {
            self.bank0[addr as usize]
        }
    }

    fn write(&mut self, addr: u8, value: u8) {
        if addr == 0x7B {
            let bank = shadow_index(self.bank0[0x79]);
            self.shadow[bank][self.bank0[0x7A] as usize] = value;
        } else {
            self.bank0[addr as usize] = value;
        }
    }

    fn run(&mut self, mut t: Transfer) -> Result<Vec<u16>, SensorError> {
        loop {
            match t.step() {
                Step::Done => return t.outcome(),
                Step::Issue(op) => {
                    self.ops.push(op);
                    let input = match op {
                        BusOp::Read { addr } => self.read(addr),
                        BusOp::Write { addr, value } => {
                            self.write(addr, value);
                            0
                        }
                        BusOp::Delay { .. } => 0,
                    };
                    t.advance(input);
                }
            }
        }
    }
}

fn device() -> Icm42670<()> {
    Icm42670::new((), Address::Primary)
}

#[test]
fn identity_accepted_for_both_parts() {
    for id in [0x67u8, 0x60u8] {
        let mut sim = Sim::new();
        sim.bank0[0x75] = id;
        assert_eq!(sim.run(device().init()), Ok(vec![]));
        assert_eq!(sim.bank0[0x1F] & 0x0F, 0x0F);
        assert_eq!(sim.ops.len(), 7);
    }
}

#[test]
fn identity_rejected_issues_nothing_more() {
    let mut sim = Sim::new();
    sim.bank0[0x75] = 0x12;
    assert_eq!(sim.run(device().init()), Err(SensorError::BadChip));
    assert_eq!(sim.ops, vec![BusOp::Read { addr: 0x75 }]);
}

#[test]
fn init_restores_default_ranges() {
    let mut sim = Sim::new();
    sim.bank0[0x75] = 0x67;
    sim.bank0[0x21] = 0x6F;
    sim.bank0[0x20] = 0x49;
    sim.bank0[0x1F] = 0x80;
    assert_eq!(sim.run(device().init()), Ok(vec![]));
    assert_eq!(sim.bank0[0x21], 0x0F);
    assert_eq!(sim.bank0[0x20], 0x09);
    assert_eq!(sim.bank0[0x1F], 0x8F);
}

#[test]
fn word_read_is_big_endian() {
    let mut sim = Sim::new();
    sim.bank0[0x09] = 0x12;
    sim.bank0[0x0A] = 0x34;
    assert_eq!(sim.run(device().temperature_raw()), Ok(vec![0x1234]));
    assert_eq!(sim.ops, vec![BusOp::Read { addr: 0x09 }, BusOp::Read { addr: 0x0A }]);
}

#[test]
fn signed_words() {
    assert_eq!(signed(0x1234), 0x1234);
    assert_eq!(signed(0xFFFF), -1);
    assert_eq!(signed(0x8000), -32768);
    assert_eq!(signed(0x7FFF), 32767);
}

#[test]
fn raw_axes_in_order() {
    let mut sim = Sim::new();
    for (i, b) in [0x00u8, 0x01, 0xFF, 0xFE, 0x80, 0x00].iter().enumerate() {
        sim.bank0[0x11 + i] = *b;
    }
    assert_eq!(sim.run(device().gyro_raw()), Ok(vec![0x0001, 0xFFFE, 0x8000]));
    let mut sim = Sim::new();
    sim.bank0[0x0B] = 0x07;
    sim.bank0[0x10] = 0x09;
    assert_eq!(sim.run(device().accel_raw()), Ok(vec![0x0700, 0x0000, 0x0009]));
}

#[test]
fn update_preserves_other_bits() {
    let mut sim = Sim::new();
    sim.bank0[0x1F] = 0xA0;
    assert_eq!(sim.run(device().set_power_mode(PowerMode::SixAxisLowNoise)), Ok(vec![]));
    assert_eq!(sim.bank0[0x1F], 0xAF);
    assert_eq!(sim.ops, vec![BusOp::Read { addr: 0x1F }, BusOp::Write { addr: 0x1F, value: 0xAF }]);

    let mut sim = Sim::new();
    sim.bank0[0x21] = 0x8F;
    assert_eq!(sim.run(device().set_accel_range(AccelRange::G4)), Ok(vec![]));
    assert_eq!(sim.bank0[0x21], 0xCF);
}

#[test]
fn int2_configuration() {
    let mut sim = Sim::new();
    sim.bank0[0x06] = 0xC7;
    assert_eq!(sim.run(device().config_int2(true, false, true)), Ok(vec![]));
    assert_eq!(sim.bank0[0x06], 0xEF);
    let mut sim = Sim::new();
    sim.bank0[0x06] = 0xFF;
    assert_eq!(sim.run(device().config_int2(false, true, false)), Ok(vec![]));
    assert_eq!(sim.bank0[0x06], 0xD7);
}

#[test]
fn soft_reset_sets_reset_bit() {
    let mut sim = Sim::new();
    sim.bank0[0x02] = 0x04;
    assert_eq!(sim.run(device().soft_reset()), Ok(vec![]));
    assert_eq!(sim.bank0[0x02], 0x14);
}

#[test]
fn read_only_write_issues_no_transaction() {
    let mut sim = Sim::new();
    let reg = Reg::WhoAmI.descriptor();
    let t = Transfer::new(vec![Request::Write { reg, value: 0x01 }]);
    assert_eq!(t.step(), Step::Done);
    assert_eq!(sim.run(t), Err(SensorError::WriteToReadOnly));
    let t = Transfer::new(vec![Request::Update { reg, value: 0x01, mask: 0x01 }]);
    assert_eq!(sim.run(t), Err(SensorError::WriteToReadOnly));
    assert!(sim.ops.is_empty());
}

#[test]
fn shadow_read_protocol_order() {
    let mut sim = Sim::new();
    sim.not_ready = 2;
    sim.shadow[0][0x30] = 0x5A;
    let reg = Reg::IntSource7.descriptor();
    assert_eq!(sim.run(Transfer::new(vec![Request::Read { reg }])), Ok(vec![0x5A]));
    assert_eq!(
        sim.ops,
        vec![
            BusOp::Read { addr: 0x00 },
            BusOp::Read { addr: 0x00 },
            BusOp::Read { addr: 0x00 },
            BusOp::Write { addr: 0x7C, value: 0x00 },
            BusOp::Write { addr: 0x7D, value: 0x30 },
            BusOp::Delay { us: 10 },
            BusOp::Read { addr: 0x7E },
            BusOp::Delay { us: 10 },
            BusOp::Write { addr: 0x7C, value: 0x00 },
            BusOp::Write { addr: 0x79, value: 0x00 },
        ]
    );
}

#[test]
fn shadow_write_protocol_order() {
    let mut sim = Sim::new();
    let reg = Reg::ApexConfig5.descriptor();
    assert_eq!(sim.run(Transfer::new(vec![Request::Write { reg, value: 0x42 }])), Ok(vec![]));
    assert_eq!(sim.shadow[0][0x47], 0x42);
    assert_eq!(
        sim.ops,
        vec![
            BusOp::Read { addr: 0x00 },
            BusOp::Write { addr: 0x79, value: 0x00 },
            BusOp::Write { addr: 0x7A, value: 0x47 },
            BusOp::Write { addr: 0x7B, value: 0x42 },
            BusOp::Delay { us: 10 },
            BusOp::Write { addr: 0x7C, value: 0x00 },
            BusOp::Write { addr: 0x79, value: 0x00 },
        ]
    );
}

#[test]
fn tilt_detection_updates_shadow_fields() {
    let mut sim = Sim::new();
    sim.bank0[0x26] = 0x01;
    sim.shadow[0][0x30] = 0x81;
    sim.shadow[0][0x47] = 0x05;
    assert_eq!(sim.run(device().do_the_thing()), Ok(vec![]));
    assert_eq!(sim.bank0[0x26], 0x11);
    assert_eq!(sim.shadow[0][0x30], 0x89);
    assert_eq!(sim.shadow[0][0x47], 0x45);
    assert_eq!(sim.bank0[0x7C], 0x00);
    assert_eq!(sim.bank0[0x79], 0x00);
}

#[test]
fn getters_read_their_registers() {
    let mut sim = Sim::new();
    sim.bank0[0x75] = 0x67;
    sim.bank0[0x1F] = 0x0C;
    sim.bank0[0x21] = 0x29;
    sim.bank0[0x20] = 0x4B;
    sim.bank0[0x3C] = 0x08;
    let d = device();
    assert_eq!(sim.run(d.device_id()), Ok(vec![0x67]));
    assert_eq!(sim.run(d.power_mode()), Ok(vec![0x0C]));
    assert_eq!(sim.run(d.accel_range()), Ok(vec![0x29]));
    assert_eq!(sim.run(d.accel_odr()), Ok(vec![0x29]));
    assert_eq!(sim.run(d.gyro_range()), Ok(vec![0x4B]));
    assert_eq!(sim.run(d.gyro_odr()), Ok(vec![0x4B]));
    assert_eq!(sim.run(d.int_status3()), Ok(vec![0x08]));
}

#[test]
fn setters_write_their_fields() {
    let mut sim = Sim::new();
    sim.bank0[0x21] = 0x60;
    sim.bank0[0x20] = 0x80;
    let d = device();
    assert_eq!(sim.run(d.set_accel_odr(icm42670::AccelOdr::Hz50)), Ok(vec![]));
    assert_eq!(sim.bank0[0x21], 0x6A);
    assert_eq!(sim.run(d.set_gyro_odr(icm42670::GyroOdr::Hz1600)), Ok(vec![]));
    assert_eq!(sim.run(d.set_gyro_range(icm42670::GyroRange::Deg500)), Ok(vec![]));
    assert_eq!(sim.bank0[0x20], 0xC5);
}

#[test]
fn session_owns_bus_handle() {
    let mut d = Icm42670::new(7u32, Address::Secondary);
    assert_eq!(d.address(), Address::Secondary);
    *d.bus() = 9;
    assert_eq!(d.free(), 9);
}
