use vstd::prelude::*;

use crate::error::SensorError;
use crate::register::{blk_sel_of, descriptor_of, Reg, Register, RegisterBank};

verus! {

/// Settle time of the shadow-bank gateway after selecting a register, in
/// microseconds.
pub const SETTLE_US: u32 = 10;

/// Bit of the clock-ready register that reports the internal clock running.
pub const CLOCK_READY: u8 = 0x08;

/// Identity code of the ICM-42607, the mass-production variant.
pub const ID_ICM42607: u8 = 0x60;

/// Identity code of the ICM-42670.
pub const ID_ICM42670: u8 = 0x67;

/// Whether `id` is the identity code of a supported device.
pub open spec fn accepted_id(id: u8) -> bool {
    id == ID_ICM42607 || id == ID_ICM42670
}

/// One bus transaction, or a pause, that a transfer asks its runner to perform.
#[derive(Clone, Copy, Debug, PartialEq, Eq, Structural)]
pub enum BusOp {
    /// Read one byte from the register at `addr` of the primary bank.
    Read { addr: u8 },
    /// Write `value` to the register at `addr` of the primary bank.
    Write { addr: u8, value: u8 },
    /// Wait for `us` microseconds.
    Delay { us: u32 },
}

/// A register-level operation. Registers of the primary bank are accessed
/// directly, those of a shadow bank through the gateway.
#[derive(Clone, Copy, Debug, PartialEq, Eq, Structural)]
pub enum Request {
    /// Read one register.
    Read { reg: Register },
    /// Read two registers, high byte first, as one big-endian word.
    ReadWord { hi: Register, lo: Register },
    /// Write a whole register.
    Write { reg: Register, value: u8 },
    /// Read a register and write back `(current & !mask) | (value & mask)`.
    Update { reg: Register, value: u8, mask: u8 },
    /// Read the identity register and stop unless it names a supported device.
    Identify,
}

/// Position of a transfer within the protocol of its current request.
#[derive(Clone, Copy, Debug, PartialEq, Eq, Structural)]
pub enum Phase {
    ReadDirect,
    ReadPoll,
    ReadSelectBank,
    ReadSelectAddr,
    ReadSettle,
    ReadFetch,
    ReadRelease,
    ReadResetR,
    ReadResetW,
    WriteDirect,
    WritePoll,
    WriteSelectBank,
    WriteSelectAddr,
    WriteData,
    WriteSettle,
    WriteResetR,
    WriteResetW,
    Finished,
}

/// What a transfer asks for next.
#[derive(Clone, Copy, Debug, PartialEq, Eq, Structural)]
pub enum Step {
    /// Perform this operation, then hand its result to the transfer.
    Issue(BusOp),
    /// The transfer has completed or failed; no further operation is needed.
    Done,
}

/// Abstract state of a transfer.
pub struct TransferView {
    pub script: Seq<Request>,
    pub index: int,
    pub phase: Phase,
    pub target: Register,
    pub pending: u8,
    pub fetched: u8,
    pub high: u8,
    pub second: bool,
    pub values: Seq<u16>,
    pub error: Option<SensorError>,
}

pub open spec fn addr_of(r: Reg) -> u8 {
    descriptor_of(r).addr
}

/// The value that a read-modify-write of `current` stores.
pub open spec fn merged(current: u8, value: u8, mask: u8) -> u8 {
    (current & !mask) | (value & mask)
}

pub open spec fn begin_read(v: TransferView, reg: Register) -> TransferView {
    TransferView {
        phase: if reg.bank == RegisterBank::Bank0 {
            Phase::ReadDirect
        } else {
            Phase::ReadPoll
        },
        target: reg,
        ..v
    }
}

pub open spec fn begin_write(v: TransferView, reg: Register, value: u8) -> TransferView {
    TransferView {
        phase: if reg.bank == RegisterBank::Bank0 {
            Phase::WriteDirect
        } else {
            Phase::WritePoll
        },
        target: reg,
        pending: value,
        ..v
    }
}

pub open spec fn fail(v: TransferView, e: SensorError) -> TransferView {
    TransferView { phase: Phase::Finished, error: Some(e), ..v }
}

/// Starts request `i` of the script, or finishes when none is left. A write
/// or update of a read-only register fails here, before any bus operation.
pub open spec fn enter(v: TransferView, i: int) -> TransferView {
    let v = TransferView { index: i, second: false, ..v };
    if i >= v.script.len() {
        TransferView { phase: Phase::Finished, ..v }
    } else {
        match v.script[i] {
            Request::Read { reg } => begin_read(v, reg),
            Request::ReadWord { hi, lo } => begin_read(v, hi),
            Request::Write { reg, value } => if reg.read_only {
                fail(v, SensorError::WriteToReadOnly)
            } else {
                begin_write(v, reg, value)
            },
            Request::Update { reg, value, mask } => if reg.read_only {
                fail(v, SensorError::WriteToReadOnly)
            } else {
                begin_read(v, reg)
            },
            Request::Identify => begin_read(v, descriptor_of(Reg::WhoAmI)),
        }
    }
}

/// Continues the current request once byte `b` of its target has been read.
pub open spec fn read_done(v: TransferView, b: u8) -> TransferView {
    match v.script[v.index] {
        Request::Read { reg } => enter(
            TransferView { values: v.values.push(b as u16), ..v },
            v.index + 1,
        ),
        Request::ReadWord { hi, lo } => if !v.second {
            begin_read(TransferView { high: b, second: true, ..v }, lo)
        } else {
            enter(
                TransferView { values: v.values.push((v.high * 256 + b) as u16), ..v },
                v.index + 1,
            )
        },
        Request::Update { reg, value, mask } => begin_write(v, reg, merged(b, value, mask)),
        Request::Identify => if accepted_id(b) {
            enter(v, v.index + 1)
        } else {
            fail(v, SensorError::BadChip)
        },
        Request::Write { reg, value } => enter(v, v.index + 1),
    }
}

/// The state after the runner reports `input` as the result of the
/// operation last asked for (the byte read; anything after a write or pause).
pub open spec fn advance(v: TransferView, input: u8) -> TransferView {
    match v.phase {
        Phase::ReadDirect => read_done(v, input),
        Phase::ReadPoll => if input & CLOCK_READY != 0 {
            TransferView { phase: Phase::ReadSelectBank, ..v }
        } else {
            v
        },
        Phase::ReadSelectBank => TransferView { phase: Phase::ReadSelectAddr, ..v },
        Phase::ReadSelectAddr => TransferView { phase: Phase::ReadSettle, ..v },
        Phase::ReadSettle => TransferView { phase: Phase::ReadFetch, ..v },
        Phase::ReadFetch => TransferView { phase: Phase::ReadRelease, fetched: input, ..v },
        Phase::ReadRelease => TransferView { phase: Phase::ReadResetR, ..v },
        Phase::ReadResetR => TransferView { phase: Phase::ReadResetW, ..v },
        Phase::ReadResetW => read_done(v, v.fetched),
        Phase::WriteDirect => enter(v, v.index + 1),
        Phase::WritePoll => if input & CLOCK_READY != 0 {
            TransferView { phase: Phase::WriteSelectBank, ..v }
        } else {
            v
        },
        Phase::WriteSelectBank => TransferView { phase: Phase::WriteSelectAddr, ..v },
        Phase::WriteSelectAddr => TransferView { phase: Phase::WriteData, ..v },
        Phase::WriteData => TransferView { phase: Phase::WriteSettle, ..v },
        Phase::WriteSettle => TransferView { phase: Phase::WriteResetR, ..v },
        Phase::WriteResetR => TransferView { phase: Phase::WriteResetW, ..v },
        Phase::WriteResetW => enter(v, v.index + 1),
        Phase::Finished => v,
    }
}

/// The operation that a transfer in state `v` asks for.
pub open spec fn action(v: TransferView) -> Step {
    let gate = blk_sel_of(v.target.bank);
    match v.phase {
        Phase::ReadDirect => Step::Issue(BusOp::Read { addr: v.target.addr }),
        Phase::ReadPoll => Step::Issue(BusOp::Read { addr: addr_of(Reg::MclkRdy) }),
        Phase::ReadSelectBank => Step::Issue(BusOp::Write { addr: addr_of(Reg::BlkSelR), value: gate }),
        Phase::ReadSelectAddr => Step::Issue(
            BusOp::Write { addr: addr_of(Reg::MaddrR), value: v.target.addr },
        ),
        Phase::ReadSettle => Step::Issue(BusOp::Delay { us: SETTLE_US }),
        Phase::ReadFetch => Step::Issue(BusOp::Read { addr: addr_of(Reg::MR) }),
        Phase::ReadRelease => Step::Issue(BusOp::Delay { us: SETTLE_US }),
        Phase::ReadResetR => Step::Issue(BusOp::Write { addr: addr_of(Reg::BlkSelR), value: 0 }),
        Phase::ReadResetW => Step::Issue(BusOp::Write { addr: addr_of(Reg::BlkSelW), value: 0 }),
        Phase::WriteDirect => Step::Issue(BusOp::Write { addr: v.target.addr, value: v.pending }),
        Phase::WritePoll => Step::Issue(BusOp::Read { addr: addr_of(Reg::MclkRdy) }),
        Phase::WriteSelectBank => Step::Issue(
            BusOp::Write { addr: addr_of(Reg::BlkSelW), value: gate },
        ),
        Phase::WriteSelectAddr => Step::Issue(
            BusOp::Write { addr: addr_of(Reg::MaddrW), value: v.target.addr },
        ),
        Phase::WriteData => Step::Issue(BusOp::Write { addr: addr_of(Reg::MW), value: v.pending }),
        Phase::WriteSettle => Step::Issue(BusOp::Delay { us: SETTLE_US }),
        Phase::WriteResetR => Step::Issue(BusOp::Write { addr: addr_of(Reg::BlkSelR), value: 0 }),
        Phase::WriteResetW => Step::Issue(BusOp::Write { addr: addr_of(Reg::BlkSelW), value: 0 }),
        Phase::Finished => Step::Done,
    }
}

/// The state of a fresh transfer of `script`, before its first request.
pub open spec fn initial(script: Seq<Request>) -> TransferView {
    TransferView {
        script,
        index: 0,
        phase: Phase::Finished,
        target: descriptor_of(Reg::WhoAmI),
        pending: 0,
        fetched: 0,
        high: 0,
        second: false,
        values: Seq::empty(),
        error: None,
    }
}

/// The state in which a transfer of `script` starts.
pub open spec fn start(script: Seq<Request>) -> TransferView {
    enter(initial(script), 0)
}

/// The operations a transfer in state `v` asks for when the results
/// `inputs[i..]` are handed to it one by one.
pub open spec fn trace(v: TransferView, inputs: Seq<u8>, i: int) -> Seq<BusOp>
    decreases inputs.len() - i,
{
    if i < 0 || i >= inputs.len() {
        Seq::empty()
    } else {
        match action(v) {
            Step::Issue(op) => seq![op] + trace(advance(v, inputs[i]), inputs, i + 1),
            Step::Done => Seq::empty(),
        }
    }
}

/// The state a transfer in state `v` reaches when the results `inputs[i..]`
/// are handed to it one by one.
pub open spec fn run(v: TransferView, inputs: Seq<u8>, i: int) -> TransferView
    decreases inputs.len() - i,
{
    if i < 0 || i >= inputs.len() {
        v
    } else {
        match action(v) {
            Step::Issue(op) => run(advance(v, inputs[i]), inputs, i + 1),
            Step::Done => v,
        }
    }
}

/// A sequence of register requests carried out one after the other, stopping
/// at the first failure. The transfer performs no I/O itself: its runner
/// performs each operation that [`Transfer::step`] names and reports the
/// result with [`Transfer::advance`].
pub struct Transfer {
    script: Vec<Request>,
    index: usize,
    phase: Phase,
    target: Register,
    pending: u8,
    fetched: u8,
    high: u8,
    second: bool,
    values: Vec<u16>,
    error: Option<SensorError>,
}

impl View for Transfer {
    type V = TransferView;

    closed spec fn view(&self) -> TransferView {
        TransferView {
            script: self.script@,
            index: self.index as int,
            phase: self.phase,
            target: self.target,
            pending: self.pending,
            fetched: self.fetched,
            high: self.high,
            second: self.second,
            values: self.values@,
            error: self.error,
        }
    }
}

/// The index stays within the script, and an unfinished transfer has a
/// current request.
pub open spec fn well_formed(v: TransferView) -> bool {
    &&& 0 <= v.index <= v.script.len()
    &&& v.phase != Phase::Finished ==> v.index < v.script.len()
}

impl Transfer {
    /// A transfer that carries out `script` in order.
    pub fn new(script: Vec<Request>) -> (t: Transfer)
        ensures
            t@ == start(script@),
            well_formed(t@),
    {
        let mut t = Transfer {
            script,
            index: 0,
            phase: Phase::Finished,
            target: Reg::WhoAmI.descriptor(),
            pending: 0,
            fetched: 0,
            high: 0,
            second: false,
            values: Vec::new(),
            error: None,
        };
        assert(t@ == initial(t@.script));
        t.enter(0);
        t
    }

    fn begin_read(&mut self, reg: Register)
        ensures
            final(self)@ == begin_read(old(self)@, reg),
    {
        self.phase = if reg.bank == RegisterBank::Bank0 {
            Phase::ReadDirect
        } else {
            Phase::ReadPoll
        };
        self.target = reg;
    }

    fn begin_write(&mut self, reg: Register, value: u8)
        ensures
            final(self)@ == begin_write(old(self)@, reg, value),
    {
        self.phase = if reg.bank == RegisterBank::Bank0 {
            Phase::WriteDirect
        } else {
            Phase::WritePoll
        };
        self.target = reg;
        self.pending = value;
    }

    fn fail(&mut self, e: SensorError)
        ensures
            final(self)@ == fail(old(self)@, e),
    {
        self.phase = Phase::Finished;
        self.error = Some(e);
    }

    fn enter(&mut self, i: usize)
        requires
            i <= old(self)@.script.len(),
        ensures
            final(self)@ == enter(old(self)@, i as int),
            well_formed(final(self)@),
    {
        self.index = i;
        self.second = false;
        if i >= self.script.len() {
            self.phase = Phase::Finished;
        } else {
            match self.script[i] {
                Request::Read { reg } => self.begin_read(reg),
                Request::ReadWord { hi, lo } => self.begin_read(hi),
                Request::Write { reg, value } => if reg.read_only {
                    self.fail(SensorError::WriteToReadOnly)
                } else {
                    self.begin_write(reg, value)
                },
                Request::Update { reg, value, mask } => if reg.read_only {
                    self.fail(SensorError::WriteToReadOnly)
                } else {
                    self.begin_read(reg)
                },
                Request::Identify => self.begin_read(Reg::WhoAmI.descriptor()),
            }
        }
    }

    fn read_done(&mut self, b: u8)
        requires
            well_formed(old(self)@),
            old(self)@.index < old(self)@.script.len(),
        ensures
            final(self)@ == read_done(old(self)@, b),
            well_formed(final(self)@),
    {
        let next: usize = if self.index < self.script.len() {
            self.index + 1
        } else {
            self.index
        };
        match self.script[self.index] {
            Request::Read { reg } => {
                self.values.push(b as u16);
                self.enter(next);
            },
            Request::ReadWord { hi, lo } => if !self.second {
                self.high = b;
                self.second = true;
                self.begin_read(lo);
            } else {
                let word: u16 = (self.high as u16) * 256 + b as u16;
                self.values.push(word);
                self.enter(next);
            },
            Request::Update { reg, value, mask } => {
                let merged: u8 = (b & !mask) | (value & mask);
                self.begin_write(reg, merged);
            },
            Request::Identify => if b == ID_ICM42607 || b == ID_ICM42670 {
                self.enter(next);
            } else {
                self.fail(SensorError::BadChip);
            },
            Request::Write { reg, value } => self.enter(next),
        }
    }

    /// The operation to perform next, or `Step::Done`.
    pub fn step(&self) -> (r: Step)
        ensures
            r == action(self@),
    {
        let gate: u8 = self.target.bank.blk_sel();
        match self.phase {
            Phase::ReadDirect => Step::Issue(BusOp::Read { addr: self.target.addr }),
            Phase::ReadPoll => Step::Issue(BusOp::Read { addr: Reg::MclkRdy.descriptor().addr }),
            Phase::ReadSelectBank => Step::Issue(
                BusOp::Write { addr: Reg::BlkSelR.descriptor().addr, value: gate },
            ),
            Phase::ReadSelectAddr => Step::Issue(
                BusOp::Write { addr: Reg::MaddrR.descriptor().addr, value: self.target.addr },
            ),
            Phase::ReadSettle => Step::Issue(BusOp::Delay { us: SETTLE_US }),
            Phase::ReadFetch => Step::Issue(BusOp::Read { addr: Reg::MR.descriptor().addr }),
            Phase::ReadRelease => Step::Issue(BusOp::Delay { us: SETTLE_US }),
            Phase::ReadResetR => Step::Issue(
                BusOp::Write { addr: Reg::BlkSelR.descriptor().addr, value: 0 },
            ),
            Phase::ReadResetW => Step::Issue(
                BusOp::Write { addr: Reg::BlkSelW.descriptor().addr, value: 0 },
            ),
            Phase::WriteDirect => Step::Issue(
                BusOp::Write { addr: self.target.addr, value: self.pending },
            ),
            Phase::WritePoll => Step::Issue(BusOp::Read { addr: Reg::MclkRdy.descriptor().addr }),
            Phase::WriteSelectBank => Step::Issue(
                BusOp::Write { addr: Reg::BlkSelW.descriptor().addr, value: gate },
            ),
            Phase::WriteSelectAddr => Step::Issue(
                BusOp::Write { addr: Reg::MaddrW.descriptor().addr, value: self.target.addr },
            ),
            Phase::WriteData => Step::Issue(
                BusOp::Write { addr: Reg::MW.descriptor().addr, value: self.pending },
            ),
            Phase::WriteSettle => Step::Issue(BusOp::Delay { us: SETTLE_US }),
            Phase::WriteResetR => Step::Issue(
                BusOp::Write { addr: Reg::BlkSelR.descriptor().addr, value: 0 },
            ),
            Phase::WriteResetW => Step::Issue(
                BusOp::Write { addr: Reg::BlkSelW.descriptor().addr, value: 0 },
            ),
            Phase::Finished => Step::Done,
        }
    }

    /// Hands the transfer the result of the operation that [`Transfer::step`]
    /// named: the byte read, or any value after a write or a pause.
    pub fn advance(&mut self, input: u8)
        requires
            well_formed(old(self)@),
        ensures
            final(self)@ == advance(old(self)@, input),
            well_formed(final(self)@),
    {
        let next: usize = if self.index < self.script.len() {
            self.index + 1
        } else {
            self.index
        };
        match self.phase {
            Phase::ReadDirect => self.read_done(input),
            Phase::ReadPoll => if input & CLOCK_READY != 0 {
                self.phase = Phase::ReadSelectBank;
            },
            Phase::ReadSelectBank => self.phase = Phase::ReadSelectAddr,
            Phase::ReadSelectAddr => self.phase = Phase::ReadSettle,
            Phase::ReadSettle => self.phase = Phase::ReadFetch,
            Phase::ReadFetch => {
                self.phase = Phase::ReadRelease;
                self.fetched = input;
            },
            Phase::ReadRelease => self.phase = Phase::ReadResetR,
            Phase::ReadResetR => self.phase = Phase::ReadResetW,
            Phase::ReadResetW => {
                let b = self.fetched;
                self.read_done(b);
            },
            Phase::WriteDirect => self.enter(next),
            Phase::WritePoll => if input & CLOCK_READY != 0 {
                self.phase = Phase::WriteSelectBank;
            },
            Phase::WriteSelectBank => self.phase = Phase::WriteSelectAddr,
            Phase::WriteSelectAddr => self.phase = Phase::WriteData,
            Phase::WriteData => self.phase = Phase::WriteSettle,
            Phase::WriteSettle => self.phase = Phase::WriteResetR,
            Phase::WriteResetR => self.phase = Phase::WriteResetW,
            Phase::WriteResetW => self.enter(next),
            Phase::Finished => {},
        }
    }

    /// Whether the transfer has completed or failed.
    pub fn is_done(&self) -> (r: bool)
        ensures
            r == (self@.phase == Phase::Finished),
    {
        self.phase == Phase::Finished
    }

    /// The outcome: the error that stopped the transfer, or the values that
    /// its read requests produced, in order (one per `Read`, `ReadWord`).
    pub fn outcome(self) -> (r: Result<Vec<u16>, SensorError>)
        ensures
            match self@.error {
                Some(e) => r == Err::<Vec<u16>, SensorError>(e),
                None => r is Ok && r->Ok_0@ == self@.values,
            },
    {
        match self.error {
            Some(e) => Err(e),
            None => Ok(self.values),
        }
    }
}

} // verus!
