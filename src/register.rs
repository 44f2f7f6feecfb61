use vstd::prelude::*;

verus! {

/// The register sets of the device. The primary bank is addressed directly;
/// the three shadow banks are reached only through the gateway registers of
/// the primary bank.
#[derive(Clone, Copy, Debug, PartialEq, Eq, Structural)]
pub enum RegisterBank {
    Bank0,
    MReg1,
    MReg2,
    MReg3,
}

/// Block-select code routing a gateway transaction to a bank.
pub open spec fn blk_sel_of(bank: RegisterBank) -> u8 {
    match bank {
        RegisterBank::MReg2 => 0x28,
        RegisterBank::MReg3 => 0x50,
        _ => 0x00,
    }
}

impl RegisterBank {
    /// Block-select code of this bank.
    pub fn blk_sel(self) -> (r: u8)
        ensures
            r == blk_sel_of(self),
    {
        match self {
            RegisterBank::MReg2 => 0x28,
            RegisterBank::MReg3 => 0x50,
            _ => 0x00,
        }
    }

    pub open spec fn is_primary(self) -> bool {
        self == RegisterBank::Bank0
    }
}

/// Immutable description of one hardware register.
#[derive(Clone, Copy, Debug, PartialEq, Eq, Structural)]
pub struct Register {
    /// Address within its bank.
    pub addr: u8,
    /// Bank holding the register.
    pub bank: RegisterBank,
    /// Whether the register must never be written.
    pub read_only: bool,
}

/// The named registers of the device.
#[derive(Clone, Copy, Debug, PartialEq, Eq, Structural)]
pub enum Reg {
    MclkRdy,
    SignalPathReset,
    IntConfig,
    TempData1,
    TempData0,
    AccelDataX1,
    AccelDataX0,
    AccelDataY1,
    AccelDataY0,
    AccelDataZ1,
    AccelDataZ0,
    GyroDataX1,
    GyroDataX0,
    GyroDataY1,
    GyroDataY0,
    GyroDataZ1,
    GyroDataZ0,
    PwrMgmt0,
    GyroConfig0,
    AccelConfig0,
    ApexConfig1,
    FifoConfig1,
    IntfConfig0,
    IntStatus3,
    WhoAmI,
    BlkSelW,
    MaddrW,
    MW,
    BlkSelR,
    MaddrR,
    MR,
    IntSource7,
    ApexConfig5,
}


/// The register map: address, bank and access of every named register.
pub open spec fn descriptor_of(r: Reg) -> Register {
    match r {
        Reg::MclkRdy => Register { addr: 0x00, bank: RegisterBank::Bank0, read_only: true },
        Reg::SignalPathReset => Register { addr: 0x02, bank: RegisterBank::Bank0, read_only: false },
        Reg::IntConfig => Register { addr: 0x06, bank: RegisterBank::Bank0, read_only: false },
        Reg::TempData1 => Register { addr: 0x09, bank: RegisterBank::Bank0, read_only: true },
        Reg::TempData0 => Register { addr: 0x0A, bank: RegisterBank::Bank0, read_only: true },
        Reg::AccelDataX1 => Register { addr: 0x0B, bank: RegisterBank::Bank0, read_only: true },
        Reg::AccelDataX0 => Register { addr: 0x0C, bank: RegisterBank::Bank0, read_only: true },
        Reg::AccelDataY1 => Register { addr: 0x0D, bank: RegisterBank::Bank0, read_only: true },
        Reg::AccelDataY0 => Register { addr: 0x0E, bank: RegisterBank::Bank0, read_only: true },
        Reg::AccelDataZ1 => Register { addr: 0x0F, bank: RegisterBank::Bank0, read_only: true },
        Reg::AccelDataZ0 => Register { addr: 0x10, bank: RegisterBank::Bank0, read_only: true },
        Reg::GyroDataX1 => Register { addr: 0x11, bank: RegisterBank::Bank0, read_only: true },
        Reg::GyroDataX0 => Register { addr: 0x12, bank: RegisterBank::Bank0, read_only: true },
        Reg::GyroDataY1 => Register { addr: 0x13, bank: RegisterBank::Bank0, read_only: true },
        Reg::GyroDataY0 => Register { addr: 0x14, bank: RegisterBank::Bank0, read_only: true },
        Reg::GyroDataZ1 => Register { addr: 0x15, bank: RegisterBank::Bank0, read_only: true },
        Reg::GyroDataZ0 => Register { addr: 0x16, bank: RegisterBank::Bank0, read_only: true },
        Reg::PwrMgmt0 => Register { addr: 0x1F, bank: RegisterBank::Bank0, read_only: false },
        Reg::GyroConfig0 => Register { addr: 0x20, bank: RegisterBank::Bank0, read_only: false },
        Reg::AccelConfig0 => Register { addr: 0x21, bank: RegisterBank::Bank0, read_only: false },
        Reg::ApexConfig1 => Register { addr: 0x26, bank: RegisterBank::Bank0, read_only: false },
        Reg::FifoConfig1 => Register { addr: 0x28, bank: RegisterBank::Bank0, read_only: false },
        Reg::IntfConfig0 => Register { addr: 0x35, bank: RegisterBank::Bank0, read_only: false },
        Reg::IntStatus3 => Register { addr: 0x3C, bank: RegisterBank::Bank0, read_only: true },
        Reg::WhoAmI => Register { addr: 0x75, bank: RegisterBank::Bank0, read_only: true },
        Reg::BlkSelW => Register { addr: 0x79, bank: RegisterBank::Bank0, read_only: false },
        Reg::MaddrW => Register { addr: 0x7A, bank: RegisterBank::Bank0, read_only: false },
        Reg::MW => Register { addr: 0x7B, bank: RegisterBank::Bank0, read_only: false },
        Reg::BlkSelR => Register { addr: 0x7C, bank: RegisterBank::Bank0, read_only: false },
        Reg::MaddrR => Register { addr: 0x7D, bank: RegisterBank::Bank0, read_only: false },
        Reg::MR => Register { addr: 0x7E, bank: RegisterBank::Bank0, read_only: true },
        Reg::IntSource7 => Register { addr: 0x30, bank: RegisterBank::MReg1, read_only: false },
        Reg::ApexConfig5 => Register { addr: 0x47, bank: RegisterBank::MReg1, read_only: false },
    }
}

impl Reg {
    /// The descriptor of this register.
    pub fn descriptor(self) -> (r: Register)
        ensures
            r == descriptor_of(self),
    {
        match self {
            Reg::MclkRdy => Register { addr: 0x00, bank: RegisterBank::Bank0, read_only: true },
            Reg::SignalPathReset => Register { addr: 0x02, bank: RegisterBank::Bank0, read_only: false },
            Reg::IntConfig => Register { addr: 0x06, bank: RegisterBank::Bank0, read_only: false },
            Reg::TempData1 => Register { addr: 0x09, bank: RegisterBank::Bank0, read_only: true },
            Reg::TempData0 => Register { addr: 0x0A, bank: RegisterBank::Bank0, read_only: true },
            Reg::AccelDataX1 => Register { addr: 0x0B, bank: RegisterBank::Bank0, read_only: true },
            Reg::AccelDataX0 => Register { addr: 0x0C, bank: RegisterBank::Bank0, read_only: true },
            Reg::AccelDataY1 => Register { addr: 0x0D, bank: RegisterBank::Bank0, read_only: true },
            Reg::AccelDataY0 => Register { addr: 0x0E, bank: RegisterBank::Bank0, read_only: true },
            Reg::AccelDataZ1 => Register { addr: 0x0F, bank: RegisterBank::Bank0, read_only: true },
            Reg::AccelDataZ0 => Register { addr: 0x10, bank: RegisterBank::Bank0, read_only: true },
            Reg::GyroDataX1 => Register { addr: 0x11, bank: RegisterBank::Bank0, read_only: true },
            Reg::GyroDataX0 => Register { addr: 0x12, bank: RegisterBank::Bank0, read_only: true },
            Reg::GyroDataY1 => Register { addr: 0x13, bank: RegisterBank::Bank0, read_only: true },
            Reg::GyroDataY0 => Register { addr: 0x14, bank: RegisterBank::Bank0, read_only: true },
            Reg::GyroDataZ1 => Register { addr: 0x15, bank: RegisterBank::Bank0, read_only: true },
            Reg::GyroDataZ0 => Register { addr: 0x16, bank: RegisterBank::Bank0, read_only: true },
            Reg::PwrMgmt0 => Register { addr: 0x1F, bank: RegisterBank::Bank0, read_only: false },
            Reg::GyroConfig0 => Register { addr: 0x20, bank: RegisterBank::Bank0, read_only: false },
            Reg::AccelConfig0 => Register { addr: 0x21, bank: RegisterBank::Bank0, read_only: false },
            Reg::ApexConfig1 => Register { addr: 0x26, bank: RegisterBank::Bank0, read_only: false },
            Reg::FifoConfig1 => Register { addr: 0x28, bank: RegisterBank::Bank0, read_only: false },
            Reg::IntfConfig0 => Register { addr: 0x35, bank: RegisterBank::Bank0, read_only: false },
            Reg::IntStatus3 => Register { addr: 0x3C, bank: RegisterBank::Bank0, read_only: true },
            Reg::WhoAmI => Register { addr: 0x75, bank: RegisterBank::Bank0, read_only: true },
            Reg::BlkSelW => Register { addr: 0x79, bank: RegisterBank::Bank0, read_only: false },
            Reg::MaddrW => Register { addr: 0x7A, bank: RegisterBank::Bank0, read_only: false },
            Reg::MW => Register { addr: 0x7B, bank: RegisterBank::Bank0, read_only: false },
            Reg::BlkSelR => Register { addr: 0x7C, bank: RegisterBank::Bank0, read_only: false },
            Reg::MaddrR => Register { addr: 0x7D, bank: RegisterBank::Bank0, read_only: false },
            Reg::MR => Register { addr: 0x7E, bank: RegisterBank::Bank0, read_only: true },
            Reg::IntSource7 => Register { addr: 0x30, bank: RegisterBank::MReg1, read_only: false },
            Reg::ApexConfig5 => Register { addr: 0x47, bank: RegisterBank::MReg1, read_only: false },
        }
    }
}

/// No two named registers share an address within one bank, and every
/// address lies in the bank's range `0x00..=0x7F`.
pub proof fn lemma_register_map_unique(a: Reg, b: Reg)
    ensures
        descriptor_of(a).addr <= 0x7F,
        descriptor_of(a).addr == descriptor_of(b).addr && descriptor_of(a).bank
            == descriptor_of(b).bank ==> a == b,
{
}

} // verus!
