use vstd::prelude::*;

use crate::access::{start, Request, Transfer};
use crate::config::{AccelOdr, AccelRange, Address, GyroOdr, GyroRange, PowerMode};
use crate::register::{descriptor_of, Reg};

verus! {

/// Bit of the signal-path-reset register that triggers a software reset.
pub const SOFT_RESET: u8 = 0x10;

/// Bits of the interrupt configuration register that configure INT2: latch
/// mode (bit 5), drive type (bit 4) and polarity (bit 3).
pub const INT2_MASK: u8 = 0x38;

/// Tilt-detection enable, bit 4 of `APEX_CONFIG1`.
pub const TILT_ENABLE: u8 = 0x10;

/// Tilt-detection interrupt routed to INT2, bit 3 of `INT_SOURCE7`.
pub const TILT_DET_INT2_EN: u8 = 0x08;

/// Tilt wait-time selection, bit 6 of `APEX_CONFIG5`.
pub const TILT_WAIT_TIME_SEL: u8 = 0x40;

pub open spec fn read_of(r: Reg) -> Request {
    Request::Read { reg: descriptor_of(r) }
}

pub open spec fn word_of(hi: Reg, lo: Reg) -> Request {
    Request::ReadWord { hi: descriptor_of(hi), lo: descriptor_of(lo) }
}

pub open spec fn update_of(r: Reg, value: u8, mask: u8) -> Request {
    Request::Update { reg: descriptor_of(r), value, mask }
}

/// The requests that open a session: check the identity, restore both
/// ranges to their reset values, then enable both sensors.
pub open spec fn init_script() -> Seq<Request> {
    seq![
        Request::Identify,
        update_of(Reg::AccelConfig0, AccelRange::G16.pattern(), AccelRange::BITMASK),
        update_of(Reg::GyroConfig0, GyroRange::Deg2000.pattern(), GyroRange::BITMASK),
        update_of(Reg::PwrMgmt0, PowerMode::SixAxisLowNoise.pattern(), PowerMode::BITMASK),
    ]
}

/// The interrupt configuration bits for INT2.
pub open spec fn int2_bits(latched_mode: bool, push_pull: bool, active_high: bool) -> u8 {
    (if latched_mode { 0x20u8 } else { 0u8 }) | (if push_pull { 0x10u8 } else { 0u8 }) | (
    if active_high {
        0x08u8
    } else {
        0u8
    })
}

/// A transfer of the single request `req`.
fn single(req: Request) -> (t: Transfer)
    ensures
        t@ == start(seq![req]),
{
    let mut script: Vec<Request> = Vec::new();
    script.push(req);
    assert(script@ =~= seq![req]);
    Transfer::new(script)
}

fn read_reg(r: Reg) -> (t: Transfer)
    ensures
        t@ == start(seq![read_of(r)]),
{
    single(Request::Read { reg: r.descriptor() })
}

fn update_reg(r: Reg, value: u8, mask: u8) -> (t: Transfer)
    ensures
        t@ == start(seq![update_of(r, value, mask)]),
{
    single(Request::Update { reg: r.descriptor(), value, mask })
}

fn read_axes(x1: Reg, x0: Reg, y1: Reg, y0: Reg, z1: Reg, z0: Reg) -> (t: Transfer)
    ensures
        t@ == start(seq![word_of(x1, x0), word_of(y1, y0), word_of(z1, z0)]),
{
    let mut script: Vec<Request> = Vec::new();
    script.push(Request::ReadWord { hi: x1.descriptor(), lo: x0.descriptor() });
    script.push(Request::ReadWord { hi: y1.descriptor(), lo: y0.descriptor() });
    script.push(Request::ReadWord { hi: z1.descriptor(), lo: z0.descriptor() });
    assert(script@ =~= seq![word_of(x1, x0), word_of(y1, y0), word_of(z1, z0)]);
    Transfer::new(script)
}

/// The signed value of a big-endian two's-complement word.
pub open spec fn signed_of(word: u16) -> int {
    if word < 0x8000 {
        word as int
    } else {
        word - 0x1_0000
    }
}

/// Interprets a word read from a data register pair as a signed count.
pub fn signed(word: u16) -> (r: i16)
    ensures
        r as int == signed_of(word),
{
    if word < 0x8000 {
        word as i16
    } else {
        (word as i32 - 0x1_0000) as i16
    }
}

/// A session with one ICM-42670 (or ICM-42607): the bus handle it owns and
/// the slave address of the device. Every operation is a [`Transfer`] that
/// re-reads the device; the session caches no configuration.
pub struct Icm42670<I2C> {
    i2c: I2C,
    address: Address,
}

impl<I2C> Icm42670<I2C> {
    pub closed spec fn spec_bus(&self) -> I2C {
        self.i2c
    }

    pub closed spec fn spec_address(&self) -> Address {
        self.address
    }

    /// Takes ownership of the bus handle for a device at `address`. Run
    /// [`Icm42670::init`] before any other operation.
    pub fn new(i2c: I2C, address: Address) -> (r: Self)
        ensures
            r.spec_bus() == i2c,
            r.spec_address() == address,
    {
        Icm42670 { i2c, address }
    }

    /// Gives the bus handle back.
    pub fn free(self) -> (r: I2C)
        ensures
            r == self.spec_bus(),
    {
        self.i2c
    }

    /// The slave address of the device.
    pub fn address(&self) -> (r: Address)
        ensures
            r == self.spec_address(),
    {
        self.address
    }

    /// The bus handle, for running transfers on it.
    pub fn bus(&mut self) -> (r: &mut I2C)
        ensures
            *r == old(self).spec_bus(),
            final(self).spec_bus() == *final(r),
            final(self).spec_address() == old(self).spec_address(),
    {
        &mut self.i2c
    }

    /// Opens the session: fails with `BadChip` unless the identity register
    /// holds a supported device's code, then sets both measurement ranges to
    /// their reset values and enables both sensors in low-noise mode.
    pub fn init(&self) -> (t: Transfer)
        ensures
            t@ == start(init_script()),
    {
        let mut script: Vec<Request> = Vec::new();
        script.push(Request::Identify);
        script.push(
            Request::Update {
                reg: Reg::AccelConfig0.descriptor(),
                value: AccelRange::default().bits(),
                mask: AccelRange::BITMASK,
            },
        );
        script.push(
            Request::Update {
                reg: Reg::GyroConfig0.descriptor(),
                value: GyroRange::default().bits(),
                mask: GyroRange::BITMASK,
            },
        );
        script.push(
            Request::Update {
                reg: Reg::PwrMgmt0.descriptor(),
                value: PowerMode::SixAxisLowNoise.bits(),
                mask: PowerMode::BITMASK,
            },
        );
        assert(script@ =~= init_script());
        Transfer::new(script)
    }

    /// Reads the identity register.
    pub fn device_id(&self) -> (t: Transfer)
        ensures
            t@ == start(seq![read_of(Reg::WhoAmI)]),
    {
        read_reg(Reg::WhoAmI)
    }

    /// Triggers a software reset of the device.
    pub fn soft_reset(&self) -> (t: Transfer)
        ensures
            t@ == start(seq![update_of(Reg::SignalPathReset, SOFT_RESET, SOFT_RESET)]),
    {
        update_reg(Reg::SignalPathReset, SOFT_RESET, SOFT_RESET)
    }

    /// Reads the raw gyroscope counts of the x, y and z axes.
    pub fn gyro_raw(&self) -> (t: Transfer)
        ensures
            t@ == start(
                seq![
                    word_of(Reg::GyroDataX1, Reg::GyroDataX0),
                    word_of(Reg::GyroDataY1, Reg::GyroDataY0),
                    word_of(Reg::GyroDataZ1, Reg::GyroDataZ0),
                ],
            ),
    {
        read_axes(
            Reg::GyroDataX1,
            Reg::GyroDataX0,
            Reg::GyroDataY1,
            Reg::GyroDataY0,
            Reg::GyroDataZ1,
            Reg::GyroDataZ0,
        )
    }

    /// Reads the raw accelerometer counts of the x, y and z axes.
    pub fn accel_raw(&self) -> (t: Transfer)
        ensures
            t@ == start(
                seq![
                    word_of(Reg::AccelDataX1, Reg::AccelDataX0),
                    word_of(Reg::AccelDataY1, Reg::AccelDataY0),
                    word_of(Reg::AccelDataZ1, Reg::AccelDataZ0),
                ],
            ),
    {
        read_axes(
            Reg::AccelDataX1,
            Reg::AccelDataX0,
            Reg::AccelDataY1,
            Reg::AccelDataY0,
            Reg::AccelDataZ1,
            Reg::AccelDataZ0,
        )
    }

    /// Reads the raw temperature count.
    pub fn temperature_raw(&self) -> (t: Transfer)
        ensures
            t@ == start(seq![word_of(Reg::TempData1, Reg::TempData0)]),
    {
        single(
            Request::ReadWord { hi: Reg::TempData1.descriptor(), lo: Reg::TempData0.descriptor() },
        )
    }

    /// Reads the power-management register; decode it with
    /// [`PowerMode::decode`].
    pub fn power_mode(&self) -> (t: Transfer)
        ensures
            t@ == start(seq![read_of(Reg::PwrMgmt0)]),
    {
        read_reg(Reg::PwrMgmt0)
    }

    /// Sets the power mode, leaving the other bits of the register as read.
    pub fn set_power_mode(&self, mode: PowerMode) -> (t: Transfer)
        ensures
            t@ == start(seq![update_of(Reg::PwrMgmt0, mode.pattern(), PowerMode::BITMASK)]),
    {
        update_reg(Reg::PwrMgmt0, mode.bits(), PowerMode::BITMASK)
    }

    /// Reads the accelerometer configuration; decode it with
    /// [`AccelRange::decode`].
    pub fn accel_range(&self) -> (t: Transfer)
        ensures
            t@ == start(seq![read_of(Reg::AccelConfig0)]),
    {
        read_reg(Reg::AccelConfig0)
    }

    /// Sets the accelerometer range, leaving the other bits of the register
    /// as read.
    pub fn set_accel_range(&self, range: AccelRange) -> (t: Transfer)
        ensures
            t@ == start(
                seq![update_of(Reg::AccelConfig0, range.pattern(), AccelRange::BITMASK)],
            ),
    {
        update_reg(Reg::AccelConfig0, range.bits(), AccelRange::BITMASK)
    }

    /// Reads the gyroscope configuration; decode it with
    /// [`GyroRange::decode`].
    pub fn gyro_range(&self) -> (t: Transfer)
        ensures
            t@ == start(seq![read_of(Reg::GyroConfig0)]),
    {
        read_reg(Reg::GyroConfig0)
    }

    /// Sets the gyroscope range, leaving the other bits of the register as
    /// read.
    pub fn set_gyro_range(&self, range: GyroRange) -> (t: Transfer)
        ensures
            t@ == start(seq![update_of(Reg::GyroConfig0, range.pattern(), GyroRange::BITMASK)]),
    {
        update_reg(Reg::GyroConfig0, range.bits(), GyroRange::BITMASK)
    }

    /// Reads the accelerometer configuration; decode it with
    /// [`AccelOdr::decode`].
    pub fn accel_odr(&self) -> (t: Transfer)
        ensures
            t@ == start(seq![read_of(Reg::AccelConfig0)]),
    {
        read_reg(Reg::AccelConfig0)
    }

    /// Sets the accelerometer output data rate, leaving the other bits of the
    /// register as read.
    pub fn set_accel_odr(&self, odr: AccelOdr) -> (t: Transfer)
        ensures
            t@ == start(seq![update_of(Reg::AccelConfig0, odr.pattern(), AccelOdr::BITMASK)]),
    {
        update_reg(Reg::AccelConfig0, odr.bits(), AccelOdr::BITMASK)
    }

    /// Reads the gyroscope configuration; decode it with
    /// [`GyroOdr::decode`].
    pub fn gyro_odr(&self) -> (t: Transfer)
        ensures
            t@ == start(seq![read_of(Reg::GyroConfig0)]),
    {
        read_reg(Reg::GyroConfig0)
    }

    /// Sets the gyroscope output data rate, leaving the other bits of the
    /// register as read.
    pub fn set_gyro_odr(&self, odr: GyroOdr) -> (t: Transfer)
        ensures
            t@ == start(seq![update_of(Reg::GyroConfig0, odr.pattern(), GyroOdr::BITMASK)]),
    {
        update_reg(Reg::GyroConfig0, odr.bits(), GyroOdr::BITMASK)
    }

    /// Configures the INT2 pin: latched or pulsed, push-pull or open-drain,
    /// active high or low.
    pub fn config_int2(&self, latched_mode: bool, push_pull: bool, active_high: bool) -> (t:
        Transfer)
        ensures
            t@ == start(
                seq![update_of(Reg::IntConfig, int2_bits(latched_mode, push_pull, active_high), INT2_MASK)],
            ),
    {
        let latch: u8 = if latched_mode { 0x20 } else { 0 };
        let drive: u8 = if push_pull { 0x10 } else { 0 };
        let polarity: u8 = if active_high { 0x08 } else { 0 };
        update_reg(Reg::IntConfig, latch | drive | polarity, INT2_MASK)
    }

    /// Enables tilt detection, routes its interrupt to INT2 and selects its
    /// wait time. The last two settings live in the first shadow bank.
    pub fn do_the_thing(&self) -> (t: Transfer)
        ensures
            t@ == start(
                seq![
                    update_of(Reg::ApexConfig1, TILT_ENABLE, TILT_ENABLE),
                    update_of(Reg::IntSource7, TILT_DET_INT2_EN, TILT_DET_INT2_EN),
                    update_of(Reg::ApexConfig5, TILT_WAIT_TIME_SEL, TILT_WAIT_TIME_SEL),
                ],
            ),
    {
        let mut script: Vec<Request> = Vec::new();
        script.push(
            Request::Update {
                reg: Reg::ApexConfig1.descriptor(),
                value: TILT_ENABLE,
                mask: TILT_ENABLE,
            },
        );
        script.push(
            Request::Update {
                reg: Reg::IntSource7.descriptor(),
                value: TILT_DET_INT2_EN,
                mask: TILT_DET_INT2_EN,
            },
        );
        script.push(
            Request::Update {
                reg: Reg::ApexConfig5.descriptor(),
                value: TILT_WAIT_TIME_SEL,
                mask: TILT_WAIT_TIME_SEL,
            },
        );
        assert(script@ =~= seq![
            update_of(Reg::ApexConfig1, TILT_ENABLE, TILT_ENABLE),
            update_of(Reg::IntSource7, TILT_DET_INT2_EN, TILT_DET_INT2_EN),
            update_of(Reg::ApexConfig5, TILT_WAIT_TIME_SEL, TILT_WAIT_TIME_SEL),
        ]);
        Transfer::new(script)
    }

    /// Reads the third interrupt status register.
    pub fn int_status3(&self) -> (t: Transfer)
        ensures
            t@ == start(seq![read_of(Reg::IntStatus3)]),
    {
        read_reg(Reg::IntStatus3)
    }
}

} // verus!
