use vstd::prelude::*;

use crate::error::SensorError;

verus! {

/// I2C slave addresses, chosen by the level of the `AP_AD0` pin.
#[derive(Clone, Copy, Debug, PartialEq, Eq, Structural)]
pub enum Address {
    /// `AP_AD0` low: `0x68`
    Primary,
    /// `AP_AD0` high: `0x69`
    Secondary,
}

impl Address {
    /// The seven-bit bus address.
    pub fn bits(self) -> (r: u8)
        ensures
            r == (match self {
                Address::Primary => 0x68u8,
                Address::Secondary => 0x69u8,
            }),
    {
        match self {
            Address::Primary => 0x68,
            Address::Secondary => 0x69,
        }
    }
}

/// Full-scale ranges of the accelerometer (bits 6:5 of its configuration register).
#[derive(Clone, Copy, Debug, PartialEq, Eq, Structural)]
pub enum AccelRange {
    /// ±2 g
    G2,
    /// ±4 g
    G4,
    /// ±8 g
    G8,
    /// ±16 g
    G16,
}

impl AccelRange {
    /// Mask of the field within its register.
    pub const BITMASK: u8 = 0x60;

    /// The field's bits for this setting, in place within the register.
    pub open spec fn pattern(self) -> u8 {
        match self {
            AccelRange::G2 => 0x60,
            AccelRange::G4 => 0x40,
            AccelRange::G8 => 0x20,
            AccelRange::G16 => 0x00,
        }
    }

    /// The setting whose pattern is `field`, if any.
    pub open spec fn from_pattern(field: u8) -> Result<AccelRange, SensorError> {
        if field == 0x60 {
            Ok(AccelRange::G2)
        } else if field == 0x40 {
            Ok(AccelRange::G4)
        } else if field == 0x20 {
            Ok(AccelRange::G8)
        } else if field == 0x00 {
            Ok(AccelRange::G16)
        } else {
            Err(SensorError::InvalidDiscriminant)
        }
    }

    /// Encodes this setting: its bits, shifted into place.
    pub fn bits(self) -> (r: u8)
        ensures
            r == self.pattern(),
    {
        match self {
            AccelRange::G2 => 0x60,
            AccelRange::G4 => 0x40,
            AccelRange::G8 => 0x20,
            AccelRange::G16 => 0x00,
        }
    }

    /// Decodes a raw register byte: masks it to the field and matches the
    /// result against the settings' patterns.
    pub fn decode(raw: u8) -> (r: Result<AccelRange, SensorError>)
        ensures
            r == AccelRange::from_pattern(raw & AccelRange::BITMASK),
    {
        let field: u8 = raw & AccelRange::BITMASK;
        if field == 0x60 {
            Ok(AccelRange::G2)
        } else if field == 0x40 {
            Ok(AccelRange::G4)
        } else if field == 0x20 {
            Ok(AccelRange::G8)
        } else if field == 0x00 {
            Ok(AccelRange::G16)
        } else {
            Err(SensorError::InvalidDiscriminant)
        }
    }
}

impl Default for AccelRange {
    /// The setting after power-on or reset.
    fn default() -> (r: AccelRange)
        ensures
            r == AccelRange::G16,
    {
        AccelRange::G16
    }
}

/// Every setting of this field encodes inside the field's mask and decodes
/// back to itself; a masked byte that matches no setting's pattern decodes to
/// an error, never to a setting.
pub proof fn lemma_accel_range_codec(v: AccelRange, raw: u8)
    ensures
        v.pattern() & AccelRange::BITMASK == v.pattern(),
        AccelRange::from_pattern(v.pattern() & AccelRange::BITMASK) == Ok::<AccelRange, SensorError>(v),
        (AccelRange::from_pattern(raw & AccelRange::BITMASK) is Err) <==> (forall|w: AccelRange|
            w.pattern() != raw & AccelRange::BITMASK),
        (AccelRange::from_pattern(raw & AccelRange::BITMASK) is Err) ==> AccelRange::from_pattern(raw & AccelRange::BITMASK)
            == Err::<AccelRange, SensorError>(SensorError::InvalidDiscriminant),
{
    assert(0x60 & 0x60 == 0x60 && 0x40 & 0x60 == 0x40 && 0x20 & 0x60 == 0x20 && 0x00 & 0x60 == 0x00) by (bit_vector);
    let field = raw & AccelRange::BITMASK;
    assert(field & 0x60 == field) by (bit_vector)
        requires
            field == raw & 0x60,
    ;
    match AccelRange::from_pattern(field) {
        Ok(w) => assert(w.pattern() == field),
        Err(_) => {},
    }
}

/// Full-scale ranges of the gyroscope (bits 6:5 of its configuration register).
#[derive(Clone, Copy, Debug, PartialEq, Eq, Structural)]
pub enum GyroRange {
    /// ±250 °/s
    Deg250,
    /// ±500 °/s
    Deg500,
    /// ±1000 °/s
    Deg1000,
    /// ±2000 °/s
    Deg2000,
}

impl GyroRange {
    /// Mask of the field within its register.
    pub const BITMASK: u8 = 0x60;

    /// The field's bits for this setting, in place within the register.
    pub open spec fn pattern(self) -> u8 {
        match self {
            GyroRange::Deg250 => 0x60,
            GyroRange::Deg500 => 0x40,
            GyroRange::Deg1000 => 0x20,
            GyroRange::Deg2000 => 0x00,
        }
    }

    /// The setting whose pattern is `field`, if any.
    pub open spec fn from_pattern(field: u8) -> Result<GyroRange, SensorError> {
        if field == 0x60 {
            Ok(GyroRange::Deg250)
        } else if field == 0x40 {
            Ok(GyroRange::Deg500)
        } else if field == 0x20 {
            Ok(GyroRange::Deg1000)
        } else if field == 0x00 {
            Ok(GyroRange::Deg2000)
        } else {
            Err(SensorError::InvalidDiscriminant)
        }
    }

    /// Encodes this setting: its bits, shifted into place.
    pub fn bits(self) -> (r: u8)
        ensures
            r == self.pattern(),
    {
        match self {
            GyroRange::Deg250 => 0x60,
            GyroRange::Deg500 => 0x40,
            GyroRange::Deg1000 => 0x20,
            GyroRange::Deg2000 => 0x00,
        }
    }

    /// Decodes a raw register byte: masks it to the field and matches the
    /// result against the settings' patterns.
    pub fn decode(raw: u8) -> (r: Result<GyroRange, SensorError>)
        ensures
            r == GyroRange::from_pattern(raw & GyroRange::BITMASK),
    {
        let field: u8 = raw & GyroRange::BITMASK;
        if field == 0x60 {
            Ok(GyroRange::Deg250)
        } else if field == 0x40 {
            Ok(GyroRange::Deg500)
        } else if field == 0x20 {
            Ok(GyroRange::Deg1000)
        } else if field == 0x00 {
            Ok(GyroRange::Deg2000)
        } else {
            Err(SensorError::InvalidDiscriminant)
        }
    }
}

impl Default for GyroRange {
    /// The setting after power-on or reset.
    fn default() -> (r: GyroRange)
        ensures
            r == GyroRange::Deg2000,
    {
        GyroRange::Deg2000
    }
}

/// Every setting of this field encodes inside the field's mask and decodes
/// back to itself; a masked byte that matches no setting's pattern decodes to
/// an error, never to a setting.
pub proof fn lemma_gyro_range_codec(v: GyroRange, raw: u8)
    ensures
        v.pattern() & GyroRange::BITMASK == v.pattern(),
        GyroRange::from_pattern(v.pattern() & GyroRange::BITMASK) == Ok::<GyroRange, SensorError>(v),
        (GyroRange::from_pattern(raw & GyroRange::BITMASK) is Err) <==> (forall|w: GyroRange|
            w.pattern() != raw & GyroRange::BITMASK),
        (GyroRange::from_pattern(raw & GyroRange::BITMASK) is Err) ==> GyroRange::from_pattern(raw & GyroRange::BITMASK)
            == Err::<GyroRange, SensorError>(SensorError::InvalidDiscriminant),
{
    assert(0x60 & 0x60 == 0x60 && 0x40 & 0x60 == 0x40 && 0x20 & 0x60 == 0x20 && 0x00 & 0x60 == 0x00) by (bit_vector);
    let field = raw & GyroRange::BITMASK;
    assert(field & 0x60 == field) by (bit_vector)
        requires
            field == raw & 0x60,
    ;
    match GyroRange::from_pattern(field) {
        Ok(w) => assert(w.pattern() == field),
        Err(_) => {},
    }
}

/// Power modes of the device: gyroscope mode in bits 3:2 and accelerometer mode in bits 1:0 of the power-management register.
#[derive(Clone, Copy, Debug, PartialEq, Eq, Structural)]
pub enum PowerMode {
    /// Gyroscope off, accelerometer off
    Sleep,
    /// Gyroscope drive on, accelerometer off
    Standby,
    /// Gyroscope off, accelerometer duty-cycled
    AccelLowPower,
    /// Gyroscope off, accelerometer on
    AccelLowNoise,
    /// Gyroscope on, accelerometer off
    GyroLowNoise,
    /// Gyroscope on, accelerometer on
    SixAxisLowNoise,
}

impl PowerMode {
    /// Mask of the field within its register.
    pub const BITMASK: u8 = 0x0F;

    /// The field's bits for this setting, in place within the register.
    pub open spec fn pattern(self) -> u8 {
        match self {
            PowerMode::Sleep => 0x00,
            PowerMode::Standby => 0x04,
            PowerMode::AccelLowPower => 0x02,
            PowerMode::AccelLowNoise => 0x03,
            PowerMode::GyroLowNoise => 0x0C,
            PowerMode::SixAxisLowNoise => 0x0F,
        }
    }

    /// The setting whose pattern is `field`, if any.
    pub open spec fn from_pattern(field: u8) -> Result<PowerMode, SensorError> {
        if field == 0x00 {
            Ok(PowerMode::Sleep)
        } else if field == 0x04 {
            Ok(PowerMode::Standby)
        } else if field == 0x02 {
            Ok(PowerMode::AccelLowPower)
        } else if field == 0x03 {
            Ok(PowerMode::AccelLowNoise)
        } else if field == 0x0C {
            Ok(PowerMode::GyroLowNoise)
        } else if field == 0x0F {
            Ok(PowerMode::SixAxisLowNoise)
        } else {
            Err(SensorError::InvalidDiscriminant)
        }
    }

    /// Encodes this setting: its bits, shifted into place.
    pub fn bits(self) -> (r: u8)
        ensures
            r == self.pattern(),
    {
        match self {
            PowerMode::Sleep => 0x00,
            PowerMode::Standby => 0x04,
            PowerMode::AccelLowPower => 0x02,
            PowerMode::AccelLowNoise => 0x03,
            PowerMode::GyroLowNoise => 0x0C,
            PowerMode::SixAxisLowNoise => 0x0F,
        }
    }

    /// Decodes a raw register byte: masks it to the field and matches the
    /// result against the settings' patterns.
    pub fn decode(raw: u8) -> (r: Result<PowerMode, SensorError>)
        ensures
            r == PowerMode::from_pattern(raw & PowerMode::BITMASK),
    {
        let field: u8 = raw & PowerMode::BITMASK;
        if field == 0x00 {
            Ok(PowerMode::Sleep)
        } else if field == 0x04 {
            Ok(PowerMode::Standby)
        } else if field == 0x02 {
            Ok(PowerMode::AccelLowPower)
        } else if field == 0x03 {
            Ok(PowerMode::AccelLowNoise)
        } else if field == 0x0C {
            Ok(PowerMode::GyroLowNoise)
        } else if field == 0x0F {
            Ok(PowerMode::SixAxisLowNoise)
        } else {
            Err(SensorError::InvalidDiscriminant)
        }
    }
}

impl Default for PowerMode {
    /// The setting after power-on or reset.
    fn default() -> (r: PowerMode)
        ensures
            r == PowerMode::Sleep,
    {
        PowerMode::Sleep
    }
}

/// Every setting of this field encodes inside the field's mask and decodes
/// back to itself; a masked byte that matches no setting's pattern decodes to
/// an error, never to a setting.
pub proof fn lemma_power_mode_codec(v: PowerMode, raw: u8)
    ensures
        v.pattern() & PowerMode::BITMASK == v.pattern(),
        PowerMode::from_pattern(v.pattern() & PowerMode::BITMASK) == Ok::<PowerMode, SensorError>(v),
        (PowerMode::from_pattern(raw & PowerMode::BITMASK) is Err) <==> (forall|w: PowerMode|
            w.pattern() != raw & PowerMode::BITMASK),
        (PowerMode::from_pattern(raw & PowerMode::BITMASK) is Err) ==> PowerMode::from_pattern(raw & PowerMode::BITMASK)
            == Err::<PowerMode, SensorError>(SensorError::InvalidDiscriminant),
{
    assert(0x00 & 0x0F == 0x00 && 0x04 & 0x0F == 0x04 && 0x02 & 0x0F == 0x02 && 0x03 & 0x0F == 0x03 && 0x0C & 0x0F == 0x0C && 0x0F & 0x0F == 0x0F) by (bit_vector);
    let field = raw & PowerMode::BITMASK;
    assert(field & 0x0F == field) by (bit_vector)
        requires
            field == raw & 0x0F,
    ;
    match PowerMode::from_pattern(field) {
        Ok(w) => assert(w.pattern() == field),
        Err(_) => {},
    }
}

/// Output data rates of the accelerometer (bits 3:0 of its configuration register).
#[derive(Clone, Copy, Debug, PartialEq, Eq, Structural)]
pub enum AccelOdr {
    /// 1.6 kHz (low-noise mode)
    Hz1600,
    /// 800 Hz (low-noise mode)
    Hz800,
    /// 400 Hz
    Hz400,
    /// 200 Hz
    Hz200,
    /// 100 Hz
    Hz100,
    /// 50 Hz
    Hz50,
    /// 25 Hz
    Hz25,
    /// 12.5 Hz
    Hz12_5,
    /// 6.25 Hz (low-power mode)
    Hz6_25,
    /// 3.125 Hz (low-power mode)
    Hz3_125,
    /// 1.5625 Hz (low-power mode)
    Hz1_5625,
}

impl AccelOdr {
    /// Mask of the field within its register.
    pub const BITMASK: u8 = 0x0F;

    /// The field's bits for this setting, in place within the register.
    pub open spec fn pattern(self) -> u8 {
        match self {
            AccelOdr::Hz1600 => 0x05,
            AccelOdr::Hz800 => 0x06,
            AccelOdr::Hz400 => 0x07,
            AccelOdr::Hz200 => 0x08,
            AccelOdr::Hz100 => 0x09,
            AccelOdr::Hz50 => 0x0A,
            AccelOdr::Hz25 => 0x0B,
            AccelOdr::Hz12_5 => 0x0C,
            AccelOdr::Hz6_25 => 0x0D,
            AccelOdr::Hz3_125 => 0x0E,
            AccelOdr::Hz1_5625 => 0x0F,
        }
    }

    /// The setting whose pattern is `field`, if any.
    pub open spec fn from_pattern(field: u8) -> Result<AccelOdr, SensorError> {
        if field == 0x05 {
            Ok(AccelOdr::Hz1600)
        } else if field == 0x06 {
            Ok(AccelOdr::Hz800)
        } else if field == 0x07 {
            Ok(AccelOdr::Hz400)
        } else if field == 0x08 {
            Ok(AccelOdr::Hz200)
        } else if field == 0x09 {
            Ok(AccelOdr::Hz100)
        } else if field == 0x0A {
            Ok(AccelOdr::Hz50)
        } else if field == 0x0B {
            Ok(AccelOdr::Hz25)
        } else if field == 0x0C {
            Ok(AccelOdr::Hz12_5)
        } else if field == 0x0D {
            Ok(AccelOdr::Hz6_25)
        } else if field == 0x0E {
            Ok(AccelOdr::Hz3_125)
        } else if field == 0x0F {
            Ok(AccelOdr::Hz1_5625)
        } else {
            Err(SensorError::InvalidDiscriminant)
        }
    }

    /// Encodes this setting: its bits, shifted into place.
    pub fn bits(self) -> (r: u8)
        ensures
            r == self.pattern(),
    {
        match self {
            AccelOdr::Hz1600 => 0x05,
            AccelOdr::Hz800 => 0x06,
            AccelOdr::Hz400 => 0x07,
            AccelOdr::Hz200 => 0x08,
            AccelOdr::Hz100 => 0x09,
            AccelOdr::Hz50 => 0x0A,
            AccelOdr::Hz25 => 0x0B,
            AccelOdr::Hz12_5 => 0x0C,
            AccelOdr::Hz6_25 => 0x0D,
            AccelOdr::Hz3_125 => 0x0E,
            AccelOdr::Hz1_5625 => 0x0F,
        }
    }

    /// Decodes a raw register byte: masks it to the field and matches the
    /// result against the settings' patterns.
    pub fn decode(raw: u8) -> (r: Result<AccelOdr, SensorError>)
        ensures
            r == AccelOdr::from_pattern(raw & AccelOdr::BITMASK),
    {
        let field: u8 = raw & AccelOdr::BITMASK;
        if field == 0x05 {
            Ok(AccelOdr::Hz1600)
        } else if field == 0x06 {
            Ok(AccelOdr::Hz800)
        } else if field == 0x07 {
            Ok(AccelOdr::Hz400)
        } else if field == 0x08 {
            Ok(AccelOdr::Hz200)
        } else if field == 0x09 {
            Ok(AccelOdr::Hz100)
        } else if field == 0x0A {
            Ok(AccelOdr::Hz50)
        } else if field == 0x0B {
            Ok(AccelOdr::Hz25)
        } else if field == 0x0C {
            Ok(AccelOdr::Hz12_5)
        } else if field == 0x0D {
            Ok(AccelOdr::Hz6_25)
        } else if field == 0x0E {
            Ok(AccelOdr::Hz3_125)
        } else if field == 0x0F {
            Ok(AccelOdr::Hz1_5625)
        } else {
            Err(SensorError::InvalidDiscriminant)
        }
    }
}

impl Default for AccelOdr {
    /// The setting after power-on or reset.
    fn default() -> (r: AccelOdr)
        ensures
            r == AccelOdr::Hz800,
    {
        AccelOdr::Hz800
    }
}

/// Every setting of this field encodes inside the field's mask and decodes
/// back to itself; a masked byte that matches no setting's pattern decodes to
/// an error, never to a setting.
pub proof fn lemma_accel_odr_codec(v: AccelOdr, raw: u8)
    ensures
        v.pattern() & AccelOdr::BITMASK == v.pattern(),
        AccelOdr::from_pattern(v.pattern() & AccelOdr::BITMASK) == Ok::<AccelOdr, SensorError>(v),
        (AccelOdr::from_pattern(raw & AccelOdr::BITMASK) is Err) <==> (forall|w: AccelOdr|
            w.pattern() != raw & AccelOdr::BITMASK),
        (AccelOdr::from_pattern(raw & AccelOdr::BITMASK) is Err) ==> AccelOdr::from_pattern(raw & AccelOdr::BITMASK)
            == Err::<AccelOdr, SensorError>(SensorError::InvalidDiscriminant),
{
    assert(0x05 & 0x0F == 0x05 && 0x06 & 0x0F == 0x06 && 0x07 & 0x0F == 0x07 && 0x08 & 0x0F == 0x08 && 0x09 & 0x0F == 0x09 && 0x0A & 0x0F == 0x0A && 0x0B & 0x0F == 0x0B && 0x0C & 0x0F == 0x0C && 0x0D & 0x0F == 0x0D && 0x0E & 0x0F == 0x0E && 0x0F & 0x0F == 0x0F) by (bit_vector);
    let field = raw & AccelOdr::BITMASK;
    assert(field & 0x0F == field) by (bit_vector)
        requires
            field == raw & 0x0F,
    ;
    match AccelOdr::from_pattern(field) {
        Ok(w) => assert(w.pattern() == field),
        Err(_) => {},
    }
}

/// Output data rates of the gyroscope (bits 3:0 of its configuration register).
#[derive(Clone, Copy, Debug, PartialEq, Eq, Structural)]
pub enum GyroOdr {
    /// 1.6 kHz
    Hz1600,
    /// 800 Hz
    Hz800,
    /// 400 Hz
    Hz400,
    /// 200 Hz
    Hz200,
    /// 100 Hz
    Hz100,
    /// 50 Hz
    Hz50,
    /// 25 Hz
    Hz25,
    /// 12.5 Hz
    Hz12_5,
}

impl GyroOdr {
    /// Mask of the field within its register.
    pub const BITMASK: u8 = 0x0F;

    /// The field's bits for this setting, in place within the register.
    pub open spec fn pattern(self) -> u8 {
        match self {
            GyroOdr::Hz1600 => 0x05,
            GyroOdr::Hz800 => 0x06,
            GyroOdr::Hz400 => 0x07,
            GyroOdr::Hz200 => 0x08,
            GyroOdr::Hz100 => 0x09,
            GyroOdr::Hz50 => 0x0A,
            GyroOdr::Hz25 => 0x0B,
            GyroOdr::Hz12_5 => 0x0C,
        }
    }

    /// The setting whose pattern is `field`, if any.
    pub open spec fn from_pattern(field: u8) -> Result<GyroOdr, SensorError> {
        if field == 0x05 {
            Ok(GyroOdr::Hz1600)
        } else if field == 0x06 {
            Ok(GyroOdr::Hz800)
        } else if field == 0x07 {
            Ok(GyroOdr::Hz400)
        } else if field == 0x08 {
            Ok(GyroOdr::Hz200)
        } else if field == 0x09 {
            Ok(GyroOdr::Hz100)
        } else if field == 0x0A {
            Ok(GyroOdr::Hz50)
        } else if field == 0x0B {
            Ok(GyroOdr::Hz25)
        } else if field == 0x0C {
            Ok(GyroOdr::Hz12_5)
        } else {
            Err(SensorError::InvalidDiscriminant)
        }
    }

    /// Encodes this setting: its bits, shifted into place.
    pub fn bits(self) -> (r: u8)
        ensures
            r == self.pattern(),
    {
        match self {
            GyroOdr::Hz1600 => 0x05,
            GyroOdr::Hz800 => 0x06,
            GyroOdr::Hz400 => 0x07,
            GyroOdr::Hz200 => 0x08,
            GyroOdr::Hz100 => 0x09,
            GyroOdr::Hz50 => 0x0A,
            GyroOdr::Hz25 => 0x0B,
            GyroOdr::Hz12_5 => 0x0C,
        }
    }

    /// Decodes a raw register byte: masks it to the field and matches the
    /// result against the settings' patterns.
    pub fn decode(raw: u8) -> (r: Result<GyroOdr, SensorError>)
        ensures
            r == GyroOdr::from_pattern(raw & GyroOdr::BITMASK),
    {
        let field: u8 = raw & GyroOdr::BITMASK;
        if field == 0x05 {
            Ok(GyroOdr::Hz1600)
        } else if field == 0x06 {
            Ok(GyroOdr::Hz800)
        } else if field == 0x07 {
            Ok(GyroOdr::Hz400)
        } else if field == 0x08 {
            Ok(GyroOdr::Hz200)
        } else if field == 0x09 {
            Ok(GyroOdr::Hz100)
        } else if field == 0x0A {
            Ok(GyroOdr::Hz50)
        } else if field == 0x0B {
            Ok(GyroOdr::Hz25)
        } else if field == 0x0C {
            Ok(GyroOdr::Hz12_5)
        } else {
            Err(SensorError::InvalidDiscriminant)
        }
    }
}

impl Default for GyroOdr {
    /// The setting after power-on or reset.
    fn default() -> (r: GyroOdr)
        ensures
            r == GyroOdr::Hz800,
    {
        GyroOdr::Hz800
    }
}

/// Every setting of this field encodes inside the field's mask and decodes
/// back to itself; a masked byte that matches no setting's pattern decodes to
/// an error, never to a setting.
pub proof fn lemma_gyro_odr_codec(v: GyroOdr, raw: u8)
    ensures
        v.pattern() & GyroOdr::BITMASK == v.pattern(),
        GyroOdr::from_pattern(v.pattern() & GyroOdr::BITMASK) == Ok::<GyroOdr, SensorError>(v),
        (GyroOdr::from_pattern(raw & GyroOdr::BITMASK) is Err) <==> (forall|w: GyroOdr|
            w.pattern() != raw & GyroOdr::BITMASK),
        (GyroOdr::from_pattern(raw & GyroOdr::BITMASK) is Err) ==> GyroOdr::from_pattern(raw & GyroOdr::BITMASK)
            == Err::<GyroOdr, SensorError>(SensorError::InvalidDiscriminant),
{
    assert(0x05 & 0x0F == 0x05 && 0x06 & 0x0F == 0x06 && 0x07 & 0x0F == 0x07 && 0x08 & 0x0F == 0x08 && 0x09 & 0x0F == 0x09 && 0x0A & 0x0F == 0x0A && 0x0B & 0x0F == 0x0B && 0x0C & 0x0F == 0x0C) by (bit_vector);
    let field = raw & GyroOdr::BITMASK;
    assert(field & 0x0F == field) by (bit_vector)
        requires
            field == raw & 0x0F,
    ;
    match GyroOdr::from_pattern(field) {
        Ok(w) => assert(w.pattern() == field),
        Err(_) => {},
    }
}

/// Unit of the FIFO count (bit 6).
#[derive(Clone, Copy, Debug, PartialEq, Eq, Structural)]
pub enum FifoCountFormat {
    /// The count is reported in bytes
    InBytes,
    /// The count is reported in records
    InRecords,
}

impl FifoCountFormat {
    /// Mask of the field within its register.
    pub const BITMASK: u8 = 0x40;

    /// The field's bits for this setting, in place within the register.
    pub open spec fn pattern(self) -> u8 {
        match self {
            FifoCountFormat::InBytes => 0x00,
            FifoCountFormat::InRecords => 0x40,
        }
    }

    /// The setting whose pattern is `field`, if any.
    pub open spec fn from_pattern(field: u8) -> Result<FifoCountFormat, SensorError> {
        if field == 0x00 {
            Ok(FifoCountFormat::InBytes)
        } else if field == 0x40 {
            Ok(FifoCountFormat::InRecords)
        } else {
            Err(SensorError::BadConfig)
        }
    }

    /// Encodes this setting: its bits, shifted into place.
    pub fn bits(self) -> (r: u8)
        ensures
            r == self.pattern(),
    {
        match self {
            FifoCountFormat::InBytes => 0x00,
            FifoCountFormat::InRecords => 0x40,
        }
    }

    /// Decodes a raw register byte: masks it to the field and matches the
    /// result against the settings' patterns.
    pub fn decode(raw: u8) -> (r: Result<FifoCountFormat, SensorError>)
        ensures
            r == FifoCountFormat::from_pattern(raw & FifoCountFormat::BITMASK),
    {
        let field: u8 = raw & FifoCountFormat::BITMASK;
        if field == 0x00 {
            Ok(FifoCountFormat::InBytes)
        } else if field == 0x40 {
            Ok(FifoCountFormat::InRecords)
        } else {
            Err(SensorError::BadConfig)
        }
    }
}

impl Default for FifoCountFormat {
    /// The setting after power-on or reset.
    fn default() -> (r: FifoCountFormat)
        ensures
            r == FifoCountFormat::InBytes,
    {
        FifoCountFormat::InBytes
    }
}

impl From<bool> for FifoCountFormat {
    fn from(value: bool) -> (r: FifoCountFormat)
        ensures
            r == (if value { FifoCountFormat::InRecords } else { FifoCountFormat::InBytes }),
    {
        if value {
            FifoCountFormat::InRecords
        } else {
            FifoCountFormat::InBytes
        }
    }
}

impl vstd::std_specs::convert::FromSpecImpl<bool> for FifoCountFormat {
    open spec fn obeys_from_spec() -> bool {
        true
    }

    open spec fn from_spec(value: bool) -> FifoCountFormat {
        if value {
            FifoCountFormat::InRecords
        } else {
            FifoCountFormat::InBytes
        }
    }
}

/// Every setting of this field encodes inside the field's mask and decodes
/// back to itself; a masked byte that matches no setting's pattern decodes to
/// an error, never to a setting.
pub proof fn lemma_fifo_count_format_codec(v: FifoCountFormat, raw: u8)
    ensures
        v.pattern() & FifoCountFormat::BITMASK == v.pattern(),
        FifoCountFormat::from_pattern(v.pattern() & FifoCountFormat::BITMASK) == Ok::<FifoCountFormat, SensorError>(v),
        (FifoCountFormat::from_pattern(raw & FifoCountFormat::BITMASK) is Err) <==> (forall|w: FifoCountFormat|
            w.pattern() != raw & FifoCountFormat::BITMASK),
        (FifoCountFormat::from_pattern(raw & FifoCountFormat::BITMASK) is Err) ==> FifoCountFormat::from_pattern(raw & FifoCountFormat::BITMASK)
            == Err::<FifoCountFormat, SensorError>(SensorError::BadConfig),
{
    assert(0x00 & 0x40 == 0x00 && 0x40 & 0x40 == 0x40) by (bit_vector);
    let field = raw & FifoCountFormat::BITMASK;
    assert(field & 0x40 == field) by (bit_vector)
        requires
            field == raw & 0x40,
    ;
    match FifoCountFormat::from_pattern(field) {
        Ok(w) => assert(w.pattern() == field),
        Err(_) => {},
    }
}

/// Byte order of the FIFO count (bit 5).
#[derive(Clone, Copy, Debug, PartialEq, Eq, Structural)]
pub enum FifoCountEndian {
    /// The count is reported little-endian
    LittleEndian,
    /// The count is reported big-endian
    BigEndian,
}

impl FifoCountEndian {
    /// Mask of the field within its register.
    pub const BITMASK: u8 = 0x20;

    /// The field's bits for this setting, in place within the register.
    pub open spec fn pattern(self) -> u8 {
        match self {
            FifoCountEndian::LittleEndian => 0x00,
            FifoCountEndian::BigEndian => 0x20,
        }
    }

    /// The setting whose pattern is `field`, if any.
    pub open spec fn from_pattern(field: u8) -> Result<FifoCountEndian, SensorError> {
        if field == 0x00 {
            Ok(FifoCountEndian::LittleEndian)
        } else if field == 0x20 {
            Ok(FifoCountEndian::BigEndian)
        } else {
            Err(SensorError::BadConfig)
        }
    }

    /// Encodes this setting: its bits, shifted into place.
    pub fn bits(self) -> (r: u8)
        ensures
            r == self.pattern(),
    {
        match self {
            FifoCountEndian::LittleEndian => 0x00,
            FifoCountEndian::BigEndian => 0x20,
        }
    }

    /// Decodes a raw register byte: masks it to the field and matches the
    /// result against the settings' patterns.
    pub fn decode(raw: u8) -> (r: Result<FifoCountEndian, SensorError>)
        ensures
            r == FifoCountEndian::from_pattern(raw & FifoCountEndian::BITMASK),
    {
        let field: u8 = raw & FifoCountEndian::BITMASK;
        if field == 0x00 {
            Ok(FifoCountEndian::LittleEndian)
        } else if field == 0x20 {
            Ok(FifoCountEndian::BigEndian)
        } else {
            Err(SensorError::BadConfig)
        }
    }
}

impl Default for FifoCountEndian {
    /// The setting after power-on or reset.
    fn default() -> (r: FifoCountEndian)
        ensures
            r == FifoCountEndian::BigEndian,
    {
        FifoCountEndian::BigEndian
    }
}

impl From<bool> for FifoCountEndian {
    fn from(value: bool) -> (r: FifoCountEndian)
        ensures
            r == (if value { FifoCountEndian::BigEndian } else { FifoCountEndian::LittleEndian }),
    {
        if value {
            FifoCountEndian::BigEndian
        } else {
            FifoCountEndian::LittleEndian
        }
    }
}

impl vstd::std_specs::convert::FromSpecImpl<bool> for FifoCountEndian {
    open spec fn obeys_from_spec() -> bool {
        true
    }

    open spec fn from_spec(value: bool) -> FifoCountEndian {
        if value {
            FifoCountEndian::BigEndian
        } else {
            FifoCountEndian::LittleEndian
        }
    }
}

/// Every setting of this field encodes inside the field's mask and decodes
/// back to itself; a masked byte that matches no setting's pattern decodes to
/// an error, never to a setting.
pub proof fn lemma_fifo_count_endian_codec(v: FifoCountEndian, raw: u8)
    ensures
        v.pattern() & FifoCountEndian::BITMASK == v.pattern(),
        FifoCountEndian::from_pattern(v.pattern() & FifoCountEndian::BITMASK) == Ok::<FifoCountEndian, SensorError>(v),
        (FifoCountEndian::from_pattern(raw & FifoCountEndian::BITMASK) is Err) <==> (forall|w: FifoCountEndian|
            w.pattern() != raw & FifoCountEndian::BITMASK),
        (FifoCountEndian::from_pattern(raw & FifoCountEndian::BITMASK) is Err) ==> FifoCountEndian::from_pattern(raw & FifoCountEndian::BITMASK)
            == Err::<FifoCountEndian, SensorError>(SensorError::BadConfig),
{
    assert(0x00 & 0x20 == 0x00 && 0x20 & 0x20 == 0x20) by (bit_vector);
    let field = raw & FifoCountEndian::BITMASK;
    assert(field & 0x20 == field) by (bit_vector)
        requires
            field == raw & 0x20,
    ;
    match FifoCountEndian::from_pattern(field) {
        Ok(w) => assert(w.pattern() == field),
        Err(_) => {},
    }
}

/// Behaviour of the FIFO when full (bit 1).
#[derive(Clone, Copy, Debug, PartialEq, Eq, Structural)]
pub enum FifoMode {
    /// Stream-to-FIFO: the oldest data is overwritten
    Stream,
    /// Stop-on-full: new data is dropped
    StopOnFull,
}

impl FifoMode {
    /// Mask of the field within its register.
    pub const BITMASK: u8 = 0x02;

    /// The field's bits for this setting, in place within the register.
    pub open spec fn pattern(self) -> u8 {
        match self {
            FifoMode::Stream => 0x00,
            FifoMode::StopOnFull => 0x02,
        }
    }

    /// The setting whose pattern is `field`, if any.
    pub open spec fn from_pattern(field: u8) -> Result<FifoMode, SensorError> {
        if field == 0x00 {
            Ok(FifoMode::Stream)
        } else if field == 0x02 {
            Ok(FifoMode::StopOnFull)
        } else {
            Err(SensorError::BadConfig)
        }
    }

    /// Encodes this setting: its bits, shifted into place.
    pub fn bits(self) -> (r: u8)
        ensures
            r == self.pattern(),
    {
        match self {
            FifoMode::Stream => 0x00,
            FifoMode::StopOnFull => 0x02,
        }
    }

    /// Decodes a raw register byte: masks it to the field and matches the
    /// result against the settings' patterns.
    pub fn decode(raw: u8) -> (r: Result<FifoMode, SensorError>)
        ensures
            r == FifoMode::from_pattern(raw & FifoMode::BITMASK),
    {
        let field: u8 = raw & FifoMode::BITMASK;
        if field == 0x00 {
            Ok(FifoMode::Stream)
        } else if field == 0x02 {
            Ok(FifoMode::StopOnFull)
        } else {
            Err(SensorError::BadConfig)
        }
    }
}

impl Default for FifoMode {
    /// The setting after power-on or reset.
    fn default() -> (r: FifoMode)
        ensures
            r == FifoMode::Stream,
    {
        FifoMode::Stream
    }
}

impl From<bool> for FifoMode {
    fn from(value: bool) -> (r: FifoMode)
        ensures
            r == (if value { FifoMode::StopOnFull } else { FifoMode::Stream }),
    {
        if value {
            FifoMode::StopOnFull
        } else {
            FifoMode::Stream
        }
    }
}

impl vstd::std_specs::convert::FromSpecImpl<bool> for FifoMode {
    open spec fn obeys_from_spec() -> bool {
        true
    }

    open spec fn from_spec(value: bool) -> FifoMode {
        if value {
            FifoMode::StopOnFull
        } else {
            FifoMode::Stream
        }
    }
}

/// Every setting of this field encodes inside the field's mask and decodes
/// back to itself; a masked byte that matches no setting's pattern decodes to
/// an error, never to a setting.
pub proof fn lemma_fifo_mode_codec(v: FifoMode, raw: u8)
    ensures
        v.pattern() & FifoMode::BITMASK == v.pattern(),
        FifoMode::from_pattern(v.pattern() & FifoMode::BITMASK) == Ok::<FifoMode, SensorError>(v),
        (FifoMode::from_pattern(raw & FifoMode::BITMASK) is Err) <==> (forall|w: FifoMode|
            w.pattern() != raw & FifoMode::BITMASK),
        (FifoMode::from_pattern(raw & FifoMode::BITMASK) is Err) ==> FifoMode::from_pattern(raw & FifoMode::BITMASK)
            == Err::<FifoMode, SensorError>(SensorError::BadConfig),
{
    assert(0x00 & 0x02 == 0x00 && 0x02 & 0x02 == 0x02) by (bit_vector);
    let field = raw & FifoMode::BITMASK;
    assert(field & 0x02 == field) by (bit_vector)
        requires
            field == raw & 0x02,
    ;
    match FifoMode::from_pattern(field) {
        Ok(w) => assert(w.pattern() == field),
        Err(_) => {},
    }
}

/// FIFO bypass control (bit 0).
#[derive(Clone, Copy, Debug, PartialEq, Eq, Structural)]
pub enum FifoBypass {
    /// The FIFO is in use
    FifoInUse,
    /// The FIFO is bypassed
    FifoIsBypassed,
}

impl FifoBypass {
    /// Mask of the field within its register.
    pub const BITMASK: u8 = 0x01;

    /// The field's bits for this setting, in place within the register.
    pub open spec fn pattern(self) -> u8 {
        match self {
            FifoBypass::FifoInUse => 0x00,
            FifoBypass::FifoIsBypassed => 0x01,
        }
    }

    /// The setting whose pattern is `field`, if any.
    pub open spec fn from_pattern(field: u8) -> Result<FifoBypass, SensorError> {
        if field == 0x00 {
            Ok(FifoBypass::FifoInUse)
        } else if field == 0x01 {
            Ok(FifoBypass::FifoIsBypassed)
        } else {
            Err(SensorError::BadConfig)
        }
    }

    /// Encodes this setting: its bits, shifted into place.
    pub fn bits(self) -> (r: u8)
        ensures
            r == self.pattern(),
    {
        match self {
            FifoBypass::FifoInUse => 0x00,
            FifoBypass::FifoIsBypassed => 0x01,
        }
    }

    /// Decodes a raw register byte: masks it to the field and matches the
    /// result against the settings' patterns.
    pub fn decode(raw: u8) -> (r: Result<FifoBypass, SensorError>)
        ensures
            r == FifoBypass::from_pattern(raw & FifoBypass::BITMASK),
    {
        let field: u8 = raw & FifoBypass::BITMASK;
        if field == 0x00 {
            Ok(FifoBypass::FifoInUse)
        } else if field == 0x01 {
            Ok(FifoBypass::FifoIsBypassed)
        } else {
            Err(SensorError::BadConfig)
        }
    }
}

impl Default for FifoBypass {
    /// The setting after power-on or reset.
    fn default() -> (r: FifoBypass)
        ensures
            r == FifoBypass::FifoIsBypassed,
    {
        FifoBypass::FifoIsBypassed
    }
}

impl From<bool> for FifoBypass {
    fn from(value: bool) -> (r: FifoBypass)
        ensures
            r == (if value { FifoBypass::FifoIsBypassed } else { FifoBypass::FifoInUse }),
    {
        if value {
            FifoBypass::FifoIsBypassed
        } else {
            FifoBypass::FifoInUse
        }
    }
}

impl vstd::std_specs::convert::FromSpecImpl<bool> for FifoBypass {
    open spec fn obeys_from_spec() -> bool {
        true
    }

    open spec fn from_spec(value: bool) -> FifoBypass {
        if value {
            FifoBypass::FifoIsBypassed
        } else {
            FifoBypass::FifoInUse
        }
    }
}

/// Every setting of this field encodes inside the field's mask and decodes
/// back to itself; a masked byte that matches no setting's pattern decodes to
/// an error, never to a setting.
pub proof fn lemma_fifo_bypass_codec(v: FifoBypass, raw: u8)
    ensures
        v.pattern() & FifoBypass::BITMASK == v.pattern(),
        FifoBypass::from_pattern(v.pattern() & FifoBypass::BITMASK) == Ok::<FifoBypass, SensorError>(v),
        (FifoBypass::from_pattern(raw & FifoBypass::BITMASK) is Err) <==> (forall|w: FifoBypass|
            w.pattern() != raw & FifoBypass::BITMASK),
        (FifoBypass::from_pattern(raw & FifoBypass::BITMASK) is Err) ==> FifoBypass::from_pattern(raw & FifoBypass::BITMASK)
            == Err::<FifoBypass, SensorError>(SensorError::BadConfig),
{
    assert(0x00 & 0x01 == 0x00 && 0x01 & 0x01 == 0x01) by (bit_vector);
    let field = raw & FifoBypass::BITMASK;
    assert(field & 0x01 == field) by (bit_vector)
        requires
            field == raw & 0x01,
    ;
    match FifoBypass::from_pattern(field) {
        Ok(w) => assert(w.pattern() == field),
        Err(_) => {},
    }
}

/// Sensitivity of the accelerometer at this range, in counts per g.
pub open spec fn accel_counts_per_g(v: AccelRange) -> u16 {
    match v {
        AccelRange::G2 => 16_384,
        AccelRange::G4 => 8_192,
        AccelRange::G8 => 4_096,
        AccelRange::G16 => 2_048,
    }
}

impl AccelRange {
    /// Sensitivity of the accelerometer at this range, in counts per g.
    pub fn counts_per_g(self) -> (r: u16)
        ensures
            r == accel_counts_per_g(self),
    {
        match self {
            AccelRange::G2 => 16_384,
            AccelRange::G4 => 8_192,
            AccelRange::G8 => 4_096,
            AccelRange::G16 => 2_048,
        }
    }
}

/// Sensitivity of the gyroscope at this range, in counts per ten degrees per
/// second (a tenth of the counts per degree per second).
pub open spec fn gyro_counts_per_10_dps(v: GyroRange) -> u16 {
    match v {
        GyroRange::Deg250 => 1_310,
        GyroRange::Deg500 => 655,
        GyroRange::Deg1000 => 328,
        GyroRange::Deg2000 => 164,
    }
}

impl GyroRange {
    /// Sensitivity of the gyroscope at this range, in counts per ten degrees per
/// second (a tenth of the counts per degree per second).
    pub fn counts_per_10_dps(self) -> (r: u16)
        ensures
            r == gyro_counts_per_10_dps(self),
    {
        match self {
            GyroRange::Deg250 => 1_310,
            GyroRange::Deg500 => 655,
            GyroRange::Deg1000 => 328,
            GyroRange::Deg2000 => 164,
        }
    }
}

/// Output data rate of the accelerometer, in microhertz.
pub open spec fn accel_odr_micro_hertz(v: AccelOdr) -> u32 {
    match v {
        AccelOdr::Hz1600 => 1_600_000_000,
        AccelOdr::Hz800 => 800_000_000,
        AccelOdr::Hz400 => 400_000_000,
        AccelOdr::Hz200 => 200_000_000,
        AccelOdr::Hz100 => 100_000_000,
        AccelOdr::Hz50 => 50_000_000,
        AccelOdr::Hz25 => 25_000_000,
        AccelOdr::Hz12_5 => 12_500_000,
        AccelOdr::Hz6_25 => 6_250_000,
        AccelOdr::Hz3_125 => 3_125_000,
        AccelOdr::Hz1_5625 => 1_562_500,
    }
}

impl AccelOdr {
    /// Output data rate of the accelerometer, in microhertz.
    pub fn micro_hertz(self) -> (r: u32)
        ensures
            r == accel_odr_micro_hertz(self),
    {
        match self {
            AccelOdr::Hz1600 => 1_600_000_000,
            AccelOdr::Hz800 => 800_000_000,
            AccelOdr::Hz400 => 400_000_000,
            AccelOdr::Hz200 => 200_000_000,
            AccelOdr::Hz100 => 100_000_000,
            AccelOdr::Hz50 => 50_000_000,
            AccelOdr::Hz25 => 25_000_000,
            AccelOdr::Hz12_5 => 12_500_000,
            AccelOdr::Hz6_25 => 6_250_000,
            AccelOdr::Hz3_125 => 3_125_000,
            AccelOdr::Hz1_5625 => 1_562_500,
        }
    }
}

/// Output data rate of the gyroscope, in microhertz.
pub open spec fn gyro_odr_micro_hertz(v: GyroOdr) -> u32 {
    match v {
        GyroOdr::Hz1600 => 1_600_000_000,
        GyroOdr::Hz800 => 800_000_000,
        GyroOdr::Hz400 => 400_000_000,
        GyroOdr::Hz200 => 200_000_000,
        GyroOdr::Hz100 => 100_000_000,
        GyroOdr::Hz50 => 50_000_000,
        GyroOdr::Hz25 => 25_000_000,
        GyroOdr::Hz12_5 => 12_500_000,
    }
}

impl GyroOdr {
    /// Output data rate of the gyroscope, in microhertz.
    pub fn micro_hertz(self) -> (r: u32)
        ensures
            r == gyro_odr_micro_hertz(self),
    {
        match self {
            GyroOdr::Hz1600 => 1_600_000_000,
            GyroOdr::Hz800 => 800_000_000,
            GyroOdr::Hz400 => 400_000_000,
            GyroOdr::Hz200 => 200_000_000,
            GyroOdr::Hz100 => 100_000_000,
            GyroOdr::Hz50 => 50_000_000,
            GyroOdr::Hz25 => 25_000_000,
            GyroOdr::Hz12_5 => 12_500_000,
        }
    }
}

} // verus!
