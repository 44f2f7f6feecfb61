use vstd::prelude::*;

use crate::access::{
    accepted_id, action, addr_of, advance, enter, initial, merged, read_done, run, start, trace, BusOp,
    Phase, Request, Step, TransferView, CLOCK_READY, SETTLE_US,
};
use crate::error::SensorError;
use crate::register::{blk_sel_of, Reg, Register, RegisterBank};

verus! {

/// `n` reads of the clock-ready register.
pub open spec fn polls(n: int) -> Seq<BusOp> {
    Seq::new(n as nat, |i: int| BusOp::Read { addr: addr_of(Reg::MclkRdy) })
}

/// While the clock-ready bit stays clear, a transfer waiting for it asks for
/// nothing but another read of the clock-ready register.
proof fn lemma_poll(v: TransferView, inputs: Seq<u8>, k: int, n: int)
    requires
        v.phase == Phase::ReadPoll || v.phase == Phase::WritePoll,
        0 <= k <= n <= inputs.len(),
        forall|j: int| k <= j < n ==> inputs[j] & CLOCK_READY == 0,
    ensures
        trace(v, inputs, k) == polls(n - k) + trace(v, inputs, n),
        run(v, inputs, k) == run(v, inputs, n),
    decreases n - k,
{
    if k < n {
        assert(advance(v, inputs[k]) == v);
        lemma_poll(v, inputs, k + 1, n);
        assert(polls(n - k) =~= seq![BusOp::Read { addr: addr_of(Reg::MclkRdy) }] + polls(n - k
            - 1));
        assert(trace(v, inputs, k) == seq![BusOp::Read { addr: addr_of(Reg::MclkRdy) }] + trace(
            v,
            inputs,
            k + 1,
        ));
        assert(trace(v, inputs, k) =~= polls(n - k) + trace(v, inputs, n));
    } else {
        assert(polls(0) =~= Seq::<BusOp>::empty());
        assert(trace(v, inputs, k) =~= polls(n - k) + trace(v, inputs, n));
    }
}

/// A write or update of a read-only register fails with `WriteToReadOnly`
/// before any bus operation, whatever the bus would answer.
pub proof fn lemma_read_only_rejected(req: Request, rest: Seq<Request>, inputs: Seq<u8>)
    requires
        match req {
            Request::Write { reg, value } => reg.read_only,
            Request::Update { reg, value, mask } => reg.read_only,
            _ => false,
        },
    ensures
        action(start(seq![req] + rest)) == Step::Done,
        trace(start(seq![req] + rest), inputs, 0) == Seq::<BusOp>::empty(),
        run(start(seq![req] + rest), inputs, 0).error == Some(SensorError::WriteToReadOnly),
{
    assert((seq![req] + rest)[0] == req);
}

/// Updating a field of a primary-bank register reads the register once and
/// writes back `(current & !mask) | (value & mask)`: the bits outside `mask`
/// keep the value read, those inside take the value given.
pub proof fn lemma_update_isolates_field(reg: Register, value: u8, mask: u8, inputs: Seq<u8>)
    requires
        reg.bank == RegisterBank::Bank0,
        !reg.read_only,
        inputs.len() == 2,
    ensures
        trace(start(seq![Request::Update { reg, value, mask }]), inputs, 0) == seq![
            BusOp::Read { addr: reg.addr },
            BusOp::Write { addr: reg.addr, value: merged(inputs[0], value, mask) },
        ],
        run(start(seq![Request::Update { reg, value, mask }]), inputs, 0).phase == Phase::Finished,
        run(start(seq![Request::Update { reg, value, mask }]), inputs, 0).error is None,
        merged(inputs[0], value, mask) & !mask == inputs[0] & !mask,
        merged(inputs[0], value, mask) & mask == value & mask,
{
    let s = seq![Request::Update { reg, value, mask }];
    let v0 = start(s);
    let v1 = advance(v0, inputs[0]);
    let v2 = advance(v1, inputs[1]);
    assert(trace(v2, inputs, 2) == Seq::<BusOp>::empty());
    assert(trace(v1, inputs, 1) =~= seq![
        BusOp::Write { addr: reg.addr, value: merged(inputs[0], value, mask) },
    ]);
    assert(trace(v0, inputs, 0) =~= seq![
        BusOp::Read { addr: reg.addr },
        BusOp::Write { addr: reg.addr, value: merged(inputs[0], value, mask) },
    ]);
    assert(run(v2, inputs, 2) == v2);
    assert(run(v1, inputs, 1) == v2);
    assert(run(v0, inputs, 0) == v2);
    let b = inputs[0];
    assert(((b & !mask) | (value & mask)) & !mask == b & !mask) by (bit_vector);
    assert(((b & !mask) | (value & mask)) & mask == value & mask) by (bit_vector);
}

/// The operations of the read side of the gateway, from the bank selection on.
pub open spec fn read_gateway(bank: RegisterBank, addr: u8) -> Seq<BusOp> {
    seq![
        BusOp::Write { addr: addr_of(Reg::BlkSelR), value: blk_sel_of(bank) },
        BusOp::Write { addr: addr_of(Reg::MaddrR), value: addr },
        BusOp::Delay { us: SETTLE_US },
        BusOp::Read { addr: addr_of(Reg::MR) },
        BusOp::Delay { us: SETTLE_US },
        BusOp::Write { addr: addr_of(Reg::BlkSelR), value: 0 },
        BusOp::Write { addr: addr_of(Reg::BlkSelW), value: 0 },
    ]
}

/// The operations of the write side of the gateway, from the bank selection on.
pub open spec fn write_gateway(bank: RegisterBank, addr: u8, value: u8) -> Seq<BusOp> {
    seq![
        BusOp::Write { addr: addr_of(Reg::BlkSelW), value: blk_sel_of(bank) },
        BusOp::Write { addr: addr_of(Reg::MaddrW), value: addr },
        BusOp::Write { addr: addr_of(Reg::MW), value },
        BusOp::Delay { us: SETTLE_US },
        BusOp::Write { addr: addr_of(Reg::BlkSelR), value: 0 },
        BusOp::Write { addr: addr_of(Reg::BlkSelW), value: 0 },
    ]
}

/// The read side of the gateway, from the bank selection on: seven operations,
/// after which the request goes on with the byte the data register returned.
#[verifier::spinoff_prover]
#[verifier::rlimit(60)]
proof fn lemma_read_gateway(w: TransferView, inputs: Seq<u8>, m: int)
    requires
        w.phase == Phase::ReadSelectBank,
        0 <= m,
        inputs.len() >= m + 7,
    ensures
        trace(w, inputs, m) == read_gateway(w.target.bank, w.target.addr) + trace(
            read_done(TransferView { fetched: inputs[m + 3], ..w }, inputs[m + 3]),
            inputs,
            m + 7,
        ),
        run(w, inputs, m) == run(read_done(TransferView { fetched: inputs[m + 3], ..w }, inputs[m + 3]), inputs, m + 7),
{
    let d = inputs[m + 3];
    let v2 = advance(w, inputs[m]);
    assert(v2 == TransferView { phase: Phase::ReadSelectAddr, ..w });
    let v3 = advance(v2, inputs[m + 1]);
    assert(v3 == TransferView { phase: Phase::ReadSettle, ..w });
    let v4 = advance(v3, inputs[m + 2]);
    assert(v4 == TransferView { phase: Phase::ReadFetch, ..w });
    let v5 = advance(v4, d);
    assert(v5 == TransferView { phase: Phase::ReadRelease, fetched: d, ..w });
    let v6 = advance(v5, inputs[m + 4]);
    assert(v6 == TransferView { phase: Phase::ReadResetR, fetched: d, ..w });
    let v7 = advance(v6, inputs[m + 5]);
    assert(v7 == TransferView { phase: Phase::ReadResetW, fetched: d, ..w });
    let v8 = advance(v7, inputs[m + 6]);
    assert(v8 == read_done(TransferView { fetched: d, ..w }, d));
    let rest = trace(v8, inputs, m + 7);
    let g = read_gateway(w.target.bank, w.target.addr);
    assert(trace(v7, inputs, m + 6) == seq![g[6]] + rest);
    assert(trace(v6, inputs, m + 5) =~= g.subrange(5, 7) + rest);
    assert(trace(v5, inputs, m + 4) =~= g.subrange(4, 7) + rest);
    assert(trace(v4, inputs, m + 3) =~= g.subrange(3, 7) + rest);
    assert(trace(v3, inputs, m + 2) =~= g.subrange(2, 7) + rest);
    assert(trace(v2, inputs, m + 1) =~= g.subrange(1, 7) + rest);
    assert(trace(w, inputs, m) =~= g + rest);
    assert(run(v7, inputs, m + 6) == run(v8, inputs, m + 7));
    assert(run(v6, inputs, m + 5) == run(v8, inputs, m + 7));
    assert(run(v5, inputs, m + 4) == run(v8, inputs, m + 7));
    assert(run(v4, inputs, m + 3) == run(v8, inputs, m + 7));
    assert(run(v3, inputs, m + 2) == run(v8, inputs, m + 7));
    assert(run(v2, inputs, m + 1) == run(v8, inputs, m + 7));
    assert(run(w, inputs, m) == run(v8, inputs, m + 7));
}

/// The write side of the gateway, from the bank selection on: six operations,
/// after which the transfer enters its next request.
#[verifier::spinoff_prover]
#[verifier::rlimit(60)]
proof fn lemma_write_gateway(w: TransferView, inputs: Seq<u8>, m: int)
    requires
        w.phase == Phase::WriteSelectBank,
        0 <= m,
        inputs.len() >= m + 6,
    ensures
        trace(w, inputs, m) == write_gateway(w.target.bank, w.target.addr, w.pending) + trace(
            enter(w, w.index + 1),
            inputs,
            m + 6,
        ),
        run(w, inputs, m) == run(enter(w, w.index + 1), inputs, m + 6),
{
    let v2 = advance(w, inputs[m]);
    assert(v2 == TransferView { phase: Phase::WriteSelectAddr, ..w });
    let v3 = advance(v2, inputs[m + 1]);
    assert(v3 == TransferView { phase: Phase::WriteData, ..w });
    let v4 = advance(v3, inputs[m + 2]);
    assert(v4 == TransferView { phase: Phase::WriteSettle, ..w });
    let v5 = advance(v4, inputs[m + 3]);
    assert(v5 == TransferView { phase: Phase::WriteResetR, ..w });
    let v6 = advance(v5, inputs[m + 4]);
    assert(v6 == TransferView { phase: Phase::WriteResetW, ..w });
    let v7 = advance(v6, inputs[m + 5]);
    assert(v7 == enter(w, w.index + 1));
    let rest = trace(v7, inputs, m + 6);
    let g = write_gateway(w.target.bank, w.target.addr, w.pending);
    assert(trace(v6, inputs, m + 5) == seq![g[5]] + rest);
    assert(trace(v5, inputs, m + 4) =~= g.subrange(4, 6) + rest);
    assert(trace(v4, inputs, m + 3) =~= g.subrange(3, 6) + rest);
    assert(trace(v3, inputs, m + 2) =~= g.subrange(2, 6) + rest);
    assert(trace(v2, inputs, m + 1) =~= g.subrange(1, 6) + rest);
    assert(trace(w, inputs, m) =~= g + rest);
    assert(run(v6, inputs, m + 5) == run(v7, inputs, m + 6));
    assert(run(v5, inputs, m + 4) == run(v7, inputs, m + 6));
    assert(run(v4, inputs, m + 3) == run(v7, inputs, m + 6));
    assert(run(v3, inputs, m + 2) == run(v7, inputs, m + 6));
    assert(run(v2, inputs, m + 1) == run(v7, inputs, m + 6));
    assert(run(w, inputs, m) == run(v7, inputs, m + 6));
}

/// From a transfer waiting for the clock, `n` not-ready answers and then a
/// ready one: `n + 1` polls, then the gateway.
proof fn lemma_poll_then(v: TransferView, inputs: Seq<u8>, k: int, n: int)
    requires
        v.phase == Phase::ReadPoll || v.phase == Phase::WritePoll,
        0 <= k <= n < inputs.len(),
        forall|j: int| k <= j < n ==> inputs[j] & CLOCK_READY == 0,
        inputs[n] & CLOCK_READY != 0,
    ensures
        trace(v, inputs, k) == polls(n - k + 1) + trace(advance(v, inputs[n]), inputs, n + 1),
        run(v, inputs, k) == run(advance(v, inputs[n]), inputs, n + 1),
{
    lemma_poll(v, inputs, k, n);
    let w = advance(v, inputs[n]);
    assert(trace(v, inputs, n) == seq![BusOp::Read { addr: addr_of(Reg::MclkRdy) }] + trace(
        w,
        inputs,
        n + 1,
    ));
    assert(polls(n - k + 1) =~= polls(n - k) + seq![BusOp::Read { addr: addr_of(Reg::MclkRdy) }]);
    assert(trace(v, inputs, k) =~= polls(n - k + 1) + trace(w, inputs, n + 1));
}

/// A read of a shadow-bank register polls the clock-ready register until its
/// ready bit is set, selects the bank and the address on the read side of
/// the gateway, waits, reads the gateway's data register, waits again and
/// resets both block selections; the value read is the one the data register
/// returned.
pub proof fn lemma_shadow_read_order(reg: Register, inputs: Seq<u8>, n: int)
    requires
        reg.bank != RegisterBank::Bank0,
        0 <= n,
        inputs.len() == n + 8,
        forall|j: int| 0 <= j < n ==> inputs[j] & CLOCK_READY == 0,
        inputs[n] & CLOCK_READY != 0,
    ensures
        trace(start(seq![Request::Read { reg }]), inputs, 0) == polls(n + 1) + read_gateway(
            reg.bank,
            reg.addr,
        ),
        run(start(seq![Request::Read { reg }]), inputs, 0).phase == Phase::Finished,
        run(start(seq![Request::Read { reg }]), inputs, 0).error is None,
        run(start(seq![Request::Read { reg }]), inputs, 0).values == seq![inputs[n + 4] as u16],
{
    let v = start(seq![Request::Read { reg }]);
    assert(v.phase == Phase::ReadPoll);
    lemma_poll_then(v, inputs, 0, n);
    let w = advance(v, inputs[n]);
    assert(w == TransferView { phase: Phase::ReadSelectBank, ..v });
    lemma_read_gateway(w, inputs, n + 1);
    let e = read_done(TransferView { fetched: inputs[n + 4], ..w }, inputs[n + 4]);
    assert(e.values =~= seq![inputs[n + 4] as u16]);
    assert(trace(e, inputs, n + 8) == Seq::<BusOp>::empty());
    assert(run(e, inputs, n + 8) == e);
    assert(read_gateway(reg.bank, reg.addr) + Seq::<BusOp>::empty() =~= read_gateway(
        reg.bank,
        reg.addr,
    ));
}

/// A write of a writable shadow-bank register polls the clock-ready register
/// until its ready bit is set, selects the bank and the address on the write
/// side of the gateway, writes the value to the gateway's data register,
/// waits and resets both block selections. Nothing is read back.
pub proof fn lemma_shadow_write_order(reg: Register, value: u8, inputs: Seq<u8>, n: int)
    requires
        reg.bank != RegisterBank::Bank0,
        !reg.read_only,
        0 <= n,
        inputs.len() == n + 7,
        forall|j: int| 0 <= j < n ==> inputs[j] & CLOCK_READY == 0,
        inputs[n] & CLOCK_READY != 0,
    ensures
        trace(start(seq![Request::Write { reg, value }]), inputs, 0) == polls(n + 1)
            + write_gateway(reg.bank, reg.addr, value),
        run(start(seq![Request::Write { reg, value }]), inputs, 0).phase == Phase::Finished,
        run(start(seq![Request::Write { reg, value }]), inputs, 0).error is None,
{
    let v = start(seq![Request::Write { reg, value }]);
    assert(v.phase == Phase::WritePoll);
    lemma_poll_then(v, inputs, 0, n);
    let w = advance(v, inputs[n]);
    assert(w == TransferView { phase: Phase::WriteSelectBank, ..v });
    lemma_write_gateway(w, inputs, n + 1);
    let e = enter(w, 1);
    assert(trace(e, inputs, n + 7) == Seq::<BusOp>::empty());
    assert(run(e, inputs, n + 7) == e);
    assert(write_gateway(reg.bank, reg.addr, value) + Seq::<BusOp>::empty() =~= write_gateway(
        reg.bank,
        reg.addr,
        value,
    ));
}

/// Updating a field of a writable shadow-bank register reads the register
/// through the gateway, then writes back through it
/// `(current & !mask) | (value & mask)`, where `current` is the byte the
/// gateway's data register returned: the bits outside `mask` keep the value
/// read.
pub proof fn lemma_shadow_update_isolates_field(
    reg: Register,
    value: u8,
    mask: u8,
    inputs: Seq<u8>,
    n1: int,
    n2: int,
)
    requires
        reg.bank != RegisterBank::Bank0,
        !reg.read_only,
        0 <= n1,
        0 <= n2,
        inputs.len() == n1 + n2 + 15,
        forall|j: int| 0 <= j < n1 ==> inputs[j] & CLOCK_READY == 0,
        inputs[n1] & CLOCK_READY != 0,
        forall|j: int| n1 + 8 <= j < n1 + 8 + n2 ==> inputs[j] & CLOCK_READY == 0,
        inputs[n1 + 8 + n2] & CLOCK_READY != 0,
    ensures
        trace(start(seq![Request::Update { reg, value, mask }]), inputs, 0) == polls(n1 + 1)
            + read_gateway(reg.bank, reg.addr) + polls(n2 + 1) + write_gateway(
            reg.bank,
            reg.addr,
            merged(inputs[n1 + 4], value, mask),
        ),
        run(start(seq![Request::Update { reg, value, mask }]), inputs, 0).phase
            == Phase::Finished,
        run(start(seq![Request::Update { reg, value, mask }]), inputs, 0).error is None,
{
    let d = inputs[n1 + 4];
    let v = start(seq![Request::Update { reg, value, mask }]);
    assert(v.phase == Phase::ReadPoll && v.target == reg);
    lemma_poll_then(v, inputs, 0, n1);
    let w = advance(v, inputs[n1]);
    assert(w == TransferView { phase: Phase::ReadSelectBank, ..v });
    lemma_read_gateway(w, inputs, n1 + 1);
    let e = read_done(TransferView { fetched: d, ..w }, d);
    assert(e.phase == Phase::WritePoll && e.target == reg && e.pending == merged(d, value, mask));
    lemma_poll_then(e, inputs, n1 + 8, n1 + 8 + n2);
    let x = advance(e, inputs[n1 + 8 + n2]);
    assert(x == TransferView { phase: Phase::WriteSelectBank, ..e });
    lemma_write_gateway(x, inputs, n1 + 9 + n2);
    let f = enter(x, x.index + 1);
    assert(f.phase == Phase::Finished && f.error is None);
    assert(trace(f, inputs, n1 + n2 + 15) == Seq::<BusOp>::empty());
    assert(run(f, inputs, n1 + n2 + 15) == f);
    let wg = write_gateway(reg.bank, reg.addr, merged(d, value, mask));
    assert(trace(x, inputs, n1 + 9 + n2) =~= wg);
    assert(trace(v, inputs, 0) =~= polls(n1 + 1) + read_gateway(reg.bank, reg.addr) + polls(
        n2 + 1,
    ) + wg);
}

/// A transfer that starts by identifying the device first reads the identity
/// register. On any code but those of the two supported parts it fails with
/// `BadChip` and asks for nothing further; on a supported code it goes on
/// with the next request.
pub proof fn lemma_identity_gate(rest: Seq<Request>, inputs: Seq<u8>)
    requires
        inputs.len() >= 1,
    ensures
        action(start(seq![Request::Identify] + rest)) == Step::Issue(
            BusOp::Read { addr: addr_of(Reg::WhoAmI) },
        ),
        !accepted_id(inputs[0]) ==> trace(start(seq![Request::Identify] + rest), inputs, 0)
            == seq![BusOp::Read { addr: addr_of(Reg::WhoAmI) }],
        !accepted_id(inputs[0]) ==> run(start(seq![Request::Identify] + rest), inputs, 0).error
            == Some(SensorError::BadChip),
        accepted_id(inputs[0]) ==> advance(start(seq![Request::Identify] + rest), inputs[0])
            == enter(initial(seq![Request::Identify] + rest), 1),
{
    let s = seq![Request::Identify] + rest;
    assert(s[0] == Request::Identify);
    let v = start(s);
    let w = advance(v, inputs[0]);
    if !accepted_id(inputs[0]) {
        assert(action(w) == Step::Done);
        assert(trace(w, inputs, 1) == Seq::<BusOp>::empty());
        assert(trace(v, inputs, 0) =~= seq![BusOp::Read { addr: addr_of(Reg::WhoAmI) }]);
        assert(run(w, inputs, 1) == w);
    } else {
        if 1 < s.len() {
            assert(s[1] == rest[0]);
        }
    }
}

/// Two primary-bank registers read as a word combine big-endian: the first
/// (high) byte read is the word's upper half.
pub proof fn lemma_read_word_big_endian(hi: Register, lo: Register, inputs: Seq<u8>)
    requires
        hi.bank == RegisterBank::Bank0,
        lo.bank == RegisterBank::Bank0,
        inputs.len() == 2,
    ensures
        trace(start(seq![Request::ReadWord { hi, lo }]), inputs, 0) == seq![
            BusOp::Read { addr: hi.addr },
            BusOp::Read { addr: lo.addr },
        ],
        run(start(seq![Request::ReadWord { hi, lo }]), inputs, 0).phase == Phase::Finished,
        run(start(seq![Request::ReadWord { hi, lo }]), inputs, 0).error is None,
        run(start(seq![Request::ReadWord { hi, lo }]), inputs, 0).values == seq![
            (inputs[0] * 256 + inputs[1]) as u16,
        ],
{
    let s = seq![Request::ReadWord { hi, lo }];
    let v0 = start(s);
    let v1 = advance(v0, inputs[0]);
    let v2 = advance(v1, inputs[1]);
    assert(v2.values =~= seq![(inputs[0] * 256 + inputs[1]) as u16]);
    assert(trace(v2, inputs, 2) == Seq::<BusOp>::empty());
    assert(trace(v1, inputs, 1) =~= seq![BusOp::Read { addr: lo.addr }]);
    assert(trace(v0, inputs, 0) =~= seq![BusOp::Read { addr: hi.addr }, BusOp::Read { addr: lo.addr }]);
    assert(run(v2, inputs, 2) == v2);
    assert(run(v1, inputs, 1) == v2);
}

} // verus!
