use icm42670::{
    AccelOdr, AccelRange, Address, FifoBypass, FifoCountEndian, FifoCountFormat, FifoMode,
    GyroOdr, GyroRange, PowerMode, Reg, RegisterBank, SensorError,
};

#[test]
fn accel_range_round_trip() {
    for v in [AccelRange::G2, AccelRange::G4, AccelRange::G8, AccelRange::G16] {
        assert_eq!(AccelRange::decode(v.bits() & AccelRange::BITMASK), Ok(v));
    }
    assert_eq!(AccelRange::G2.bits(), 0x60);
    assert_eq!(AccelRange::G4.bits(), 0x40);
    assert_eq!(AccelRange::G8.bits(), 0x20);
    assert_eq!(AccelRange::G16.bits(), 0x00);
}

#[test]
fn gyro_range_round_trip() {
    for v in [GyroRange::Deg250, GyroRange::Deg500, GyroRange::Deg1000, GyroRange::Deg2000] {
        assert_eq!(GyroRange::decode(v.bits() & GyroRange::BITMASK), Ok(v));
    }
    assert_eq!(GyroRange::Deg250.bits(), 0x60);
}

#[test]
fn power_mode_round_trip() {
    let all = [
        PowerMode::Sleep,
        PowerMode::Standby,
        PowerMode::AccelLowPower,
        PowerMode::AccelLowNoise,
        PowerMode::GyroLowNoise,
        PowerMode::SixAxisLowNoise,
    ];
    for v in all {
        assert_eq!(PowerMode::decode(v.bits() & PowerMode::BITMASK), Ok(v));
    }
    assert_eq!(PowerMode::Standby.bits(), 0b0100);
    assert_eq!(PowerMode::AccelLowPower.bits(), 0b0010);
    assert_eq!(PowerMode::SixAxisLowNoise.bits(), 0b1111);
}

#[test]
fn odr_round_trip() {
    let accel = [
        AccelOdr::Hz1600,
        AccelOdr::Hz800,
        AccelOdr::Hz400,
        AccelOdr::Hz200,
        AccelOdr::Hz100,
        AccelOdr::Hz50,
        AccelOdr::Hz25,
        AccelOdr::Hz12_5,
        AccelOdr::Hz6_25,
        AccelOdr::Hz3_125,
        AccelOdr::Hz1_5625,
    ];
    for v in accel {
        assert_eq!(AccelOdr::decode(v.bits() & AccelOdr::BITMASK), Ok(v));
    }
    let gyro = [
        GyroOdr::Hz1600,
        GyroOdr::Hz800,
        GyroOdr::Hz400,
        GyroOdr::Hz200,
        GyroOdr::Hz100,
        GyroOdr::Hz50,
        GyroOdr::Hz25,
        GyroOdr::Hz12_5,
    ];
    for v in gyro {
        assert_eq!(GyroOdr::decode(v.bits() & GyroOdr::BITMASK), Ok(v));
    }
    assert_eq!(AccelOdr::Hz1600.bits(), 0b0101);
    assert_eq!(GyroOdr::Hz12_5.bits(), 0b1100);
}

#[test]
fn fifo_flags_round_trip() {
    for v in [FifoCountFormat::InBytes, FifoCountFormat::InRecords] {
        assert_eq!(FifoCountFormat::decode(v.bits()), Ok(v));
    }
    for v in [FifoCountEndian::LittleEndian, FifoCountEndian::BigEndian] {
        assert_eq!(FifoCountEndian::decode(v.bits()), Ok(v));
    }
    for v in [FifoMode::Stream, FifoMode::StopOnFull] {
        assert_eq!(FifoMode::decode(v.bits()), Ok(v));
    }
    for v in [FifoBypass::FifoInUse, FifoBypass::FifoIsBypassed] {
        assert_eq!(FifoBypass::decode(v.bits()), Ok(v));
    }
    assert_eq!(FifoCountFormat::InRecords.bits(), 0x40);
    assert_eq!(FifoCountEndian::BigEndian.bits(), 0x20);
    assert_eq!(FifoMode::StopOnFull.bits(), 0x02);
    assert_eq!(FifoBypass::FifoIsBypassed.bits(), 0x01);
}

#[test]
fn decode_masks_unrelated_bits() {
    assert_eq!(AccelRange::decode(0xE5), Ok(AccelRange::G2));
    assert_eq!(AccelRange::decode(0x9F), Ok(AccelRange::G16));
    assert_eq!(AccelOdr::decode(0x66), Ok(AccelOdr::Hz800));
    assert_eq!(PowerMode::decode(0xFF), Ok(PowerMode::SixAxisLowNoise));
    assert_eq!(FifoCountFormat::decode(0xBF), Ok(FifoCountFormat::InBytes));
    assert_eq!(FifoBypass::decode(0xFF), Ok(FifoBypass::FifoIsBypassed));
}

#[test]
fn invalid_field_is_an_error() {
    assert_eq!(PowerMode::decode(0x01), Err(SensorError::InvalidDiscriminant));
    assert_eq!(PowerMode::decode(0x08), Err(SensorError::InvalidDiscriminant));
    assert_eq!(AccelOdr::decode(0x00), Err(SensorError::InvalidDiscriminant));
    assert_eq!(AccelOdr::decode(0x04), Err(SensorError::InvalidDiscriminant));
    assert_eq!(GyroOdr::decode(0x0D), Err(SensorError::InvalidDiscriminant));
    assert_eq!(GyroOdr::decode(0x0F), Err(SensorError::InvalidDiscriminant));
}

#[test]
fn defaults_match_reset_state() {
    assert_eq!(AccelRange::default(), AccelRange::G16);
    assert_eq!(GyroRange::default(), GyroRange::Deg2000);
    assert_eq!(PowerMode::default(), PowerMode::Sleep);
    assert_eq!(AccelOdr::default(), AccelOdr::Hz800);
    assert_eq!(GyroOdr::default(), GyroOdr::Hz800);
    assert_eq!(FifoCountFormat::default(), FifoCountFormat::InBytes);
    assert_eq!(FifoCountEndian::default(), FifoCountEndian::BigEndian);
    assert_eq!(FifoMode::default(), FifoMode::Stream);
    assert_eq!(FifoBypass::default(), FifoBypass::FifoIsBypassed);
}

#[test]
fn fifo_flags_from_bool() {
    assert_eq!(FifoCountFormat::from(true), FifoCountFormat::InRecords);
    assert_eq!(FifoCountFormat::from(false), FifoCountFormat::InBytes);
    assert_eq!(FifoCountEndian::from(true), FifoCountEndian::BigEndian);
    assert_eq!(FifoMode::from(true), FifoMode::StopOnFull);
    assert_eq!(FifoBypass::from(false), FifoBypass::FifoInUse);
}

#[test]
fn address_and_register_map() {
    assert_eq!(Address::Primary.bits(), 0x68);
    assert_eq!(Address::Secondary.bits(), 0x69);
    assert_eq!(Reg::WhoAmI.descriptor().addr, 0x75);
    assert!(Reg::WhoAmI.descriptor().read_only);
    assert_eq!(Reg::PwrMgmt0.descriptor().addr, 0x1F);
    assert!(!Reg::PwrMgmt0.descriptor().read_only);
    assert_eq!(Reg::IntSource7.descriptor().bank, RegisterBank::MReg1);
    assert_eq!(Reg::ApexConfig5.descriptor().addr, 0x47);
    assert_eq!(RegisterBank::MReg1.blk_sel(), 0x00);
    assert_eq!(RegisterBank::MReg2.blk_sel(), 0x28);
    assert_eq!(RegisterBank::MReg3.blk_sel(), 0x50);
}

#[test]
fn sensitivity_tables() {
    assert_eq!(AccelRange::G2.counts_per_g(), 16_384);
    assert_eq!(AccelRange::G4.counts_per_g(), 8_192);
    assert_eq!(AccelRange::G8.counts_per_g(), 4_096);
    assert_eq!(AccelRange::G16.counts_per_g(), 2_048);
    assert_eq!(GyroRange::Deg250.counts_per_10_dps(), 1_310);
    assert_eq!(GyroRange::Deg500.counts_per_10_dps(), 655);
    assert_eq!(GyroRange::Deg1000.counts_per_10_dps(), 328);
    assert_eq!(GyroRange::Deg2000.counts_per_10_dps(), 164);
    assert_eq!(GyroRange::Deg2000.counts_per_10_dps() as f32 / 10.0, 16.4f32);
}

#[test]
fn rate_tables() {
    assert_eq!(AccelOdr::Hz1600.micro_hertz(), 1_600_000_000);
    assert_eq!(AccelOdr::Hz12_5.micro_hertz(), 12_500_000);
    assert_eq!(AccelOdr::Hz1_5625.micro_hertz(), 1_562_500);
    assert_eq!(AccelOdr::Hz1_5625.micro_hertz() as f32 / 1_000_000.0, 1.5625f32);
    assert_eq!(GyroOdr::Hz800.micro_hertz(), 800_000_000);
    assert_eq!(GyroOdr::Hz12_5.micro_hertz(), 12_500_000);
}
