//! Display driver protocol, rendered as data.
//!
//! The panel controller is driven by an exact, fixed protocol: a reset
//! pulse with settle delays, a busy-line wait, and an ordered sequence of
//! command/parameter writes, followed for each refresh by a frame transfer
//! and a power-on / refresh / power-off handshake. The command byte values
//! and parameter bytes are literal constants that must be reproduced
//! exactly and in exactly this order.
//!
//! This module proves that ordering: a driver state machine whose
//! transitions return the exact operation list for the hardware layer to
//! execute. The hardware layer performs each operation over the serial bus
//! and the signal lines; it decides nothing itself.

use vstd::prelude::*;
use crate::epd::EPDType;
use crate::framebuffer::FrameBuffer;
use crate::framebuffer::spec_pack;

verus! {

// Signal-line and bus assignment of the panel.
pub const RESET_PIN: u8 = 27;

pub const BUSY_PIN: u8 = 17;

pub const DC_PIN: u8 = 22;

pub const CS0_PIN: u8 = 8;

/// Serial bus clock rate in hertz.
pub const SPI_CLOCK_HZ: u32 = 5000000;

/// Largest number of bytes handed to the serial bus in one write.
pub const SPI_CHUNK: usize = 64;

// Command bytes of the panel controller.
pub const AC073TC1_PSR: u8 = 0x00;

pub const AC073TC1_PWR: u8 = 0x01;

pub const AC073TC1_POF: u8 = 0x02;

pub const AC073TC1_POFS: u8 = 0x03;

pub const AC073TC1_PON: u8 = 0x04;

pub const AC073TC1_BTST1: u8 = 0x05;

pub const AC073TC1_BTST2: u8 = 0x06;

pub const AC073TC1_BTST3: u8 = 0x08;

pub const AC073TC1_DTM: u8 = 0x10;

pub const AC073TC1_DRF: u8 = 0x12;

pub const AC073TC1_IPC: u8 = 0x13;

pub const AC073TC1_PLL: u8 = 0x30;

pub const AC073TC1_TSE: u8 = 0x41;

pub const AC073TC1_CDI: u8 = 0x50;

pub const AC073TC1_TCON: u8 = 0x60;

pub const AC073TC1_TRES: u8 = 0x61;

pub const AC073TC1_VDCS: u8 = 0x82;

pub const AC073TC1_T_VDCS: u8 = 0x84;

pub const AC073TC1_AGID: u8 = 0x86;

pub const AC073TC1_CMDH: u8 = 0xAA;

pub const AC073TC1_CCSET: u8 = 0xE0;

pub const AC073TC1_PWS: u8 = 0xE3;

pub const AC073TC1_TSSET: u8 = 0xE6;

/// Settle delay between the edges of the reset pulse.
pub const RESET_SETTLE_MS: u64 = 100;

/// Busy-wait budget after the reset pulse, one of the two values the panel
/// family has been driven with; which is authoritative awaits hardware
/// verification, so both are carried.
pub const SETUP_BUSY_TIMEOUT_LONG_MS: u64 = 10000;

/// The shorter of the two candidate post-reset busy-wait budgets.
pub const SETUP_BUSY_TIMEOUT_SHORT_MS: u64 = 100;

/// Busy-wait budget after the power-on command.
pub const PON_BUSY_TIMEOUT_MS: u64 = 400;

/// Busy-wait budget for the refresh itself, the slow operation.
pub const DRF_BUSY_TIMEOUT_MS: u64 = 45000;

/// Busy-wait budget after the power-off command.
pub const POF_BUSY_TIMEOUT_MS: u64 = 400;

/// One command write: the command byte, then its parameter bytes.
pub struct Command {
    pub cmd: u8,
    pub data: Vec<u8>,
}

/// One operation the hardware layer must perform, in order.
pub enum BusOp {
    /// Drive the reset line low.
    SetResetLow,
    /// Drive the reset line high.
    SetResetHigh,
    /// Sleep for the given number of milliseconds.
    SleepMs(u64),
    /// Wait for the busy line to clear, with the given budget in
    /// milliseconds.
    WaitBusy(u64),
    /// Write a command byte and its parameters over the serial bus.
    Send(Command),
}

/// The mathematical form of one operation.
pub enum SpecOp {
    ResetLow,
    ResetHigh,
    SleepMs(u64),
    WaitBusy(u64),
    Send(u8, Seq<u8>),
}

/// The mathematical form of an operation.
pub open spec fn op_view(op: BusOp) -> SpecOp {
    match op {
        BusOp::SetResetLow => SpecOp::ResetLow,
        BusOp::SetResetHigh => SpecOp::ResetHigh,
        BusOp::SleepMs(ms) => SpecOp::SleepMs(ms),
        BusOp::WaitBusy(ms) => SpecOp::WaitBusy(ms),
        BusOp::Send(c) => SpecOp::Send(c.cmd, c.data@),
    }
}

/// The mathematical form of an operation list.
pub open spec fn ops_view(s: Seq<BusOp>) -> Seq<SpecOp> {
    s.map_values(|op: BusOp| op_view(op))
}

/// The init/reset sequence: reset pulse with settle delays, busy wait,
/// then the fixed ordered command writes configuring power, timing,
/// voltage and resolution registers.
pub open spec fn spec_setup_ops(busy_timeout_ms: u64) -> Seq<SpecOp> {
    seq![
        SpecOp::ResetLow,
        SpecOp::SleepMs(100),
        SpecOp::ResetHigh,
        SpecOp::SleepMs(100),
        SpecOp::ResetLow,
        SpecOp::SleepMs(100),
        SpecOp::ResetHigh,
        SpecOp::WaitBusy(busy_timeout_ms),
        SpecOp::Send(0xAA, seq![0x49u8, 0x55, 0x20, 0x08, 0x09, 0x18]),
        SpecOp::Send(0x01, seq![0x3Fu8, 0x00, 0x32, 0x2A, 0x0E, 0x2A]),
        SpecOp::Send(0x00, seq![0x5Fu8, 0x69]),
        SpecOp::Send(0x03, seq![0x00u8, 0x54, 0x00, 0x44]),
        SpecOp::Send(0x05, seq![0x40u8, 0x1F, 0x1F, 0x2C]),
        SpecOp::Send(0x06, seq![0x6Fu8, 0x1F, 0x16, 0x25]),
        SpecOp::Send(0x08, seq![0x6Fu8, 0x1F, 0x1F, 0x22]),
        SpecOp::Send(0x13, seq![0x00u8, 0x04]),
        SpecOp::Send(0x30, seq![0x02u8]),
        SpecOp::Send(0x41, seq![0x00u8]),
        SpecOp::Send(0x50, seq![0x3Fu8]),
        SpecOp::Send(0x60, seq![0x02u8, 0x00]),
        SpecOp::Send(0x61, seq![0x03u8, 0x20, 0x01, 0xE0]),
        SpecOp::Send(0x82, seq![0x1Eu8]),
        SpecOp::Send(0x84, seq![0x00u8]),
        SpecOp::Send(0x86, seq![0x00u8]),
        SpecOp::Send(0xE3, seq![0x2Fu8]),
        SpecOp::Send(0xE0, seq![0x00u8]),
        SpecOp::Send(0xE6, seq![0x00u8]),
    ]
}

/// The operations that follow a frame transfer: power on, refresh, power
/// off, each with its bounded busy wait.
pub open spec fn spec_finish_ops() -> Seq<SpecOp> {
    seq![
        SpecOp::Send(0x04, seq![]),
        SpecOp::WaitBusy(400),
        SpecOp::Send(0x12, seq![0x00u8]),
        SpecOp::WaitBusy(45000),
        SpecOp::Send(0x02, seq![0x00u8]),
        SpecOp::WaitBusy(400),
    ]
}

/// A whole update: setup, frame transfer, then the finish handshake.
pub open spec fn spec_update_ops(busy_timeout_ms: u64, frame: Seq<u8>) -> Seq<SpecOp> {
    spec_setup_ops(busy_timeout_ms) + seq![SpecOp::Send(0x10, frame)] + spec_finish_ops()
}

/// The protocol states of the driver.
#[derive(Clone, Copy, Debug, PartialEq, Eq, Structural)]
pub enum DriverState {
    /// The panel geometry is known; the init sequence has not run yet.
    Identified,
    /// The init sequence has run; the panel is idle and ready for a frame.
    Configured,
    /// A packed frame has been written to the controller.
    Transferring,
    /// The panel has been powered on and told to refresh.
    Refreshing,
    /// The refresh is done and the panel powered back off.
    PowerOff,
}

/// What a bounded busy wait does next, given the line state and the time
/// already spent.
#[derive(Clone, Copy, Debug, PartialEq, Eq, Structural)]
pub enum BusyStep {
    /// The line reads idle: the wait is over.
    Proceed,
    /// The line reads busy and the deadline has not passed: poll again.
    PollAgain,
    /// The line reads busy and the deadline has passed: report a timeout.
    TimedOut,
}

/// One decision of the bounded busy-wait poll loop: proceed once the line
/// reads idle, poll while the deadline has not passed, and time out after
/// it, instead of hanging on an unresponsive panel.
pub fn busy_wait_step(asserted: bool, elapsed_ms: u64, deadline_ms: u64) -> (r: BusyStep)
    ensures
        (r == BusyStep::Proceed) <==> !asserted,
        (r == BusyStep::PollAgain) <==> (asserted && elapsed_ms < deadline_ms),
        (r == BusyStep::TimedOut) <==> (asserted && elapsed_ms >= deadline_ms),
{
    if !asserted {
        BusyStep::Proceed
    } else if elapsed_ms < deadline_ms {
        BusyStep::PollAgain
    } else {
        BusyStep::TimedOut
    }
}

/// How long the one coarse sleep of a busy wait lasts: the full budget if
/// the line reads busy at the moment of checking, otherwise none.
pub fn coarse_wait_ms(asserted: bool, budget_ms: u64) -> (r: u64)
    ensures
        r == if asserted {
            budget_ms
        } else {
            0u64
        },
{
    if asserted {
        budget_ms
    } else {
        0
    }
}

/// End of the next bounded write of a chunked bus transfer: the transport
/// may not accept arbitrary write sizes, so payloads go out in bounded
/// chunks until everything is written.
pub fn chunk_end(written: usize, len: usize) -> (r: usize)
    requires
        written < len,
    ensures
        r == if written + SPI_CHUNK <= len {
            (written + SPI_CHUNK) as usize
        } else {
            len
        },
        written < r <= len,
        r - written <= SPI_CHUNK,
{
    if len - written > SPI_CHUNK {
        written + SPI_CHUNK
    } else {
        len
    }
}

/// A one-byte parameter list.
fn bytes1(a: u8) -> (r: Vec<u8>)
    ensures
        r@ == seq![a],
{
    let mut v: Vec<u8> = Vec::new();
    v.push(a);
    proof {
        assert(v@ =~= seq![a]);
    }
    v
}

/// A two-byte parameter list.
fn bytes2(a: u8, b: u8) -> (r: Vec<u8>)
    ensures
        r@ == seq![a, b],
{
    let mut v = bytes1(a);
    v.push(b);
    proof {
        assert(v@ =~= seq![a, b]);
    }
    v
}

/// A four-byte parameter list.
fn bytes4(a: u8, b: u8, c: u8, d: u8) -> (r: Vec<u8>)
    ensures
        r@ == seq![a, b, c, d],
{
    let mut v = bytes2(a, b);
    v.push(c);
    v.push(d);
    proof {
        assert(v@ =~= seq![a, b, c, d]);
    }
    v
}

/// A six-byte parameter list.
fn bytes6(a: u8, b: u8, c: u8, d: u8, e: u8, f: u8) -> (r: Vec<u8>)
    ensures
        r@ == seq![a, b, c, d, e, f],
{
    let mut v = bytes4(a, b, c, d);
    v.push(e);
    v.push(f);
    proof {
        assert(v@ =~= seq![a, b, c, d, e, f]);
    }
    v
}

/// Wrap a command write as an operation.
fn send_op(cmd: u8, data: Vec<u8>) -> (r: BusOp)
    ensures
        op_view(r) == SpecOp::Send(cmd, data@),
{
    BusOp::Send(Command { cmd, data })
}

/// `ops_view` distributes over `push`.
proof fn lemma_ops_view_push(s: Seq<BusOp>, op: BusOp)
    ensures
        ops_view(s.push(op)) == ops_view(s).push(op_view(op)),
{
    assert(ops_view(s.push(op)) =~= ops_view(s).push(op_view(op)));
}

/// `ops_view` distributes over concatenation.
proof fn lemma_ops_view_add(a: Seq<BusOp>, b: Seq<BusOp>)
    ensures
        ops_view(a + b) == ops_view(a) + ops_view(b),
{
    assert(ops_view(a + b) =~= ops_view(a) + ops_view(b));
}

/// The init/reset operation list, with the given post-reset busy budget.
pub fn setup_ops(busy_timeout_ms: u64) -> (r: Vec<BusOp>)
    ensures
        ops_view(r@) == spec_setup_ops(busy_timeout_ms),
{
    let mut ops: Vec<BusOp> = Vec::new();
    ops.push(BusOp::SetResetLow);
    ops.push(BusOp::SleepMs(RESET_SETTLE_MS));
    ops.push(BusOp::SetResetHigh);
    ops.push(BusOp::SleepMs(RESET_SETTLE_MS));
    ops.push(BusOp::SetResetLow);
    ops.push(BusOp::SleepMs(RESET_SETTLE_MS));
    ops.push(BusOp::SetResetHigh);
    ops.push(BusOp::WaitBusy(busy_timeout_ms));
    ops.push(send_op(AC073TC1_CMDH, bytes6(0x49, 0x55, 0x20, 0x08, 0x09, 0x18)));
    ops.push(send_op(AC073TC1_PWR, bytes6(0x3F, 0x00, 0x32, 0x2A, 0x0E, 0x2A)));
    ops.push(send_op(AC073TC1_PSR, bytes2(0x5F, 0x69)));
    ops.push(send_op(AC073TC1_POFS, bytes4(0x00, 0x54, 0x00, 0x44)));
    ops.push(send_op(AC073TC1_BTST1, bytes4(0x40, 0x1F, 0x1F, 0x2C)));
    ops.push(send_op(AC073TC1_BTST2, bytes4(0x6F, 0x1F, 0x16, 0x25)));
    ops.push(send_op(AC073TC1_BTST3, bytes4(0x6F, 0x1F, 0x1F, 0x22)));
    ops.push(send_op(AC073TC1_IPC, bytes2(0x00, 0x04)));
    ops.push(send_op(AC073TC1_PLL, bytes1(0x02)));
    ops.push(send_op(AC073TC1_TSE, bytes1(0x00)));
    ops.push(send_op(AC073TC1_CDI, bytes1(0x3F)));
    ops.push(send_op(AC073TC1_TCON, bytes2(0x02, 0x00)));
    ops.push(send_op(AC073TC1_TRES, bytes4(0x03, 0x20, 0x01, 0xE0)));
    ops.push(send_op(AC073TC1_VDCS, bytes1(0x1E)));
    ops.push(send_op(AC073TC1_T_VDCS, bytes1(0x00)));
    ops.push(send_op(AC073TC1_AGID, bytes1(0x00)));
    ops.push(send_op(AC073TC1_PWS, bytes1(0x2F)));
    ops.push(send_op(AC073TC1_CCSET, bytes1(0x00)));
    ops.push(send_op(AC073TC1_TSSET, bytes1(0x00)));
    proof {
        assert(ops_view(ops@) =~= spec_setup_ops(busy_timeout_ms));
    }
    ops
}

/// The display driver: panel descriptor, frame buffer sized to it, and the
/// protocol state. The hardware layer owns the bus and the signal lines
/// and executes the operation lists this machine produces.
pub struct Inky {
    pub eeprom: EPDType,
    pub buf: FrameBuffer,
    pub state: DriverState,
}

impl Inky {
    /// Driver invariant: the descriptor is valid and the frame buffer is
    /// sized to its geometry.
    pub open spec fn wf(&self) -> bool {
        &&& self.eeprom.wf()
        &&& self.buf.wf()
        &&& self.buf.spec_width() == self.eeprom.width
        &&& self.buf.spec_height() == self.eeprom.height
    }

    /// The frame as palette indices, row-major.
    pub open spec fn frame(&self) -> Seq<u8> {
        self.buf.view()
    }

    pub open spec fn spec_state(&self) -> DriverState {
        self.state
    }

    /// A driver for an identified panel, with an all-zero frame.
    pub fn new(eeprom: EPDType) -> (r: Inky)
        requires
            eeprom.wf(),
        ensures
            r.wf(),
            r.eeprom == eeprom,
            r.spec_state() == DriverState::Identified,
            r.frame() == Seq::new((eeprom.width * eeprom.height) as nat, |i: int| 0u8),
    {
        let w = eeprom.width as usize;
        let h = eeprom.height as usize;
        proof {
            assert(w * h <= 0xFFFF_FFFFusize) by (nonlinear_arith)
                requires
                    w <= 0xFFFF,
                    h <= 0xFFFF,
            ;
        }
        let buf = FrameBuffer::new(w, h);
        Inky { eeprom, buf, state: DriverState::Identified }
    }

    /// The protocol state the driver is in.
    pub fn state(&self) -> (r: DriverState)
        ensures
            r == self.spec_state(),
    {
        self.state
    }

    /// Write one pixel of the frame.
    pub fn set_pixel(&mut self, x: usize, y: usize, v: u8)
        requires
            old(self).wf(),
            x < old(self).eeprom.width,
            y < old(self).eeprom.height,
            v < 8,
        ensures
            final(self).wf(),
            final(self).eeprom == old(self).eeprom,
            final(self).spec_state() == old(self).spec_state(),
            final(self).frame() == old(self).frame().update(
                y * old(self).eeprom.width + x,
                v,
            ),
    {
        self.buf.set_pixel(x, y, v);
    }

    /// Fill the whole frame from a flat buffer of palette indices in
    /// row-major order, as the quantiser produces it.
    pub fn load_frame(&mut self, pixels: &Vec<u8>)
        requires
            old(self).wf(),
            pixels@.len() == old(self).frame().len(),
            forall|i: int| 0 <= i < pixels@.len() ==> pixels@[i] < 8,
        ensures
            final(self).wf(),
            final(self).eeprom == old(self).eeprom,
            final(self).spec_state() == old(self).spec_state(),
            final(self).frame() == pixels@,
    {
        let w = self.eeprom.width as usize;
        let h = self.eeprom.height as usize;
        let mut ix: usize = 0;
        while ix < pixels.len()
            invariant
                0 <= ix <= pixels@.len(),
                self.wf(),
                self.eeprom == old(self).eeprom,
                self.spec_state() == old(self).spec_state(),
                w == self.eeprom.width,
                h == self.eeprom.height,
                pixels@.len() == self.frame().len(),
                forall|i: int| 0 <= i < pixels@.len() ==> pixels@[i] < 8,
                forall|i: int| 0 <= i < ix ==> self.frame()[i] == pixels@[i],
                forall|i: int| ix <= i < pixels@.len() ==> self.frame()[i] == old(self).frame()[i],
            decreases pixels@.len() - ix,
        {
            proof {
                let wi = w as int;
                let hi = h as int;
                let xi = ix as int;
                assert(wi >= 1) by (nonlinear_arith)
                    requires
                        0 <= xi,
                        xi < wi * hi,
                        0 <= wi,
                        0 <= hi,
                ;
                assert(xi / wi < hi && wi * (xi / wi) + xi % wi == xi && 0 <= xi % wi < wi)
                    by (nonlinear_arith)
                    requires
                        0 <= xi,
                        xi < wi * hi,
                        1 <= wi,
                ;
            }
            let x = ix % w;
            let y = ix / w;
            let v = pixels[ix];
            let ghost pre = self.frame();
            self.set_pixel(x, y, v);
            proof {
                assert(y * w + x == ix);
                assert(self.frame() == pre.update(ix as int, v));
            }
            ix = ix + 1;
        }
        proof {
            assert(self.frame() =~= pixels@);
        }
    }

    /// Read one pixel of the frame.
    pub fn get_pixel(&self, x: usize, y: usize) -> (r: u8)
        requires
            self.wf(),
            x < self.eeprom.width,
            y < self.eeprom.height,
        ensures
            r == self.frame()[y * self.eeprom.width + x],
    {
        self.buf.get_pixel(x, y)
    }

    /// Run the init/reset sequence: from `Identified` or `Configured`, the
    /// panel ends up configured and idle.
    pub fn configure_ops(&mut self, busy_timeout_ms: u64) -> (ops: Vec<BusOp>)
        requires
            old(self).wf(),
            old(self).spec_state() == DriverState::Identified || old(self).spec_state()
                == DriverState::Configured,
        ensures
            final(self).wf(),
            final(self).eeprom == old(self).eeprom,
            final(self).frame() == old(self).frame(),
            final(self).spec_state() == DriverState::Configured,
            ops_view(ops@) == spec_setup_ops(busy_timeout_ms),
    {
        self.state = DriverState::Configured;
        setup_ops(busy_timeout_ms)
    }

    /// Transfer the packed frame: the panel is freshly reset (the full init
    /// sequence again), then the frame goes out behind the frame-transfer
    /// command byte.
    pub fn transfer_ops(&mut self, busy_timeout_ms: u64) -> (ops: Vec<BusOp>)
        requires
            old(self).wf(),
            old(self).spec_state() == DriverState::Configured,
            old(self).frame().len() % 2 == 0,
        ensures
            final(self).wf(),
            final(self).eeprom == old(self).eeprom,
            final(self).frame() == old(self).frame(),
            final(self).spec_state() == DriverState::Transferring,
            ops_view(ops@) == spec_setup_ops(busy_timeout_ms) + seq![
                SpecOp::Send(0x10, spec_pack(old(self).frame())),
            ],
    {
        let mut ops = setup_ops(busy_timeout_ms);
        let packed = self.buf.packed();
        let ghost before = ops@;
        ops.push(send_op(AC073TC1_DTM, packed));
        proof {
            lemma_ops_view_push(before, ops@[ops@.len() - 1]);
            assert(ops_view(ops@) =~= spec_setup_ops(busy_timeout_ms) + seq![
                SpecOp::Send(0x10, spec_pack(old(self).frame())),
            ]);
        }
        self.state = DriverState::Transferring;
        ops
    }

    /// Power the panel on for the refresh.
    pub fn power_on_ops(&mut self) -> (ops: Vec<BusOp>)
        requires
            old(self).wf(),
            old(self).spec_state() == DriverState::Transferring,
        ensures
            final(self).wf(),
            final(self).eeprom == old(self).eeprom,
            final(self).frame() == old(self).frame(),
            final(self).spec_state() == DriverState::Refreshing,
            ops_view(ops@) == seq![SpecOp::Send(0x04, Seq::<u8>::empty()), SpecOp::WaitBusy(400)],
    {
        let mut ops: Vec<BusOp> = Vec::new();
        ops.push(send_op(AC073TC1_PON, Vec::new()));
        ops.push(BusOp::WaitBusy(PON_BUSY_TIMEOUT_MS));
        self.state = DriverState::Refreshing;
        proof {
            assert(ops_view(ops@) =~= seq![
                SpecOp::Send(0x04, Seq::<u8>::empty()),
                SpecOp::WaitBusy(400),
            ]);
        }
        ops
    }

    /// Issue the refresh, the slow ink-movement operation.
    pub fn refresh_ops(&mut self) -> (ops: Vec<BusOp>)
        requires
            old(self).wf(),
            old(self).spec_state() == DriverState::Refreshing,
        ensures
            final(self).wf(),
            final(self).eeprom == old(self).eeprom,
            final(self).frame() == old(self).frame(),
            final(self).spec_state() == DriverState::PowerOff,
            ops_view(ops@) == seq![
                SpecOp::Send(0x12, seq![0x00u8]),
                SpecOp::WaitBusy(45000),
            ],
    {
        let mut ops: Vec<BusOp> = Vec::new();
        ops.push(send_op(AC073TC1_DRF, bytes1(0x00)));
        ops.push(BusOp::WaitBusy(DRF_BUSY_TIMEOUT_MS));
        self.state = DriverState::PowerOff;
        proof {
            assert(ops_view(ops@) =~= seq![
                SpecOp::Send(0x12, seq![0x00u8]),
                SpecOp::WaitBusy(45000),
            ]);
        }
        ops
    }

    /// Power the panel back off; the driver is idle and ready for the next
    /// transfer.
    pub fn power_off_ops(&mut self) -> (ops: Vec<BusOp>)
        requires
            old(self).wf(),
            old(self).spec_state() == DriverState::PowerOff,
        ensures
            final(self).wf(),
            final(self).eeprom == old(self).eeprom,
            final(self).frame() == old(self).frame(),
            final(self).spec_state() == DriverState::Configured,
            ops_view(ops@) == seq![
                SpecOp::Send(0x02, seq![0x00u8]),
                SpecOp::WaitBusy(400),
            ],
    {
        let mut ops: Vec<BusOp> = Vec::new();
        ops.push(send_op(AC073TC1_POF, bytes1(0x00)));
        ops.push(BusOp::WaitBusy(POF_BUSY_TIMEOUT_MS));
        self.state = DriverState::Configured;
        proof {
            assert(ops_view(ops@) =~= seq![
                SpecOp::Send(0x02, seq![0x00u8]),
                SpecOp::WaitBusy(400),
            ]);
        }
        ops
    }

    /// A whole `show`: transfer the packed frame and run the finish
    /// handshake; the driver returns to `Configured`.
    pub fn show_ops(&mut self, busy_timeout_ms: u64) -> (ops: Vec<BusOp>)
        requires
            old(self).wf(),
            old(self).spec_state() == DriverState::Configured,
            old(self).frame().len() % 2 == 0,
        ensures
            final(self).wf(),
            final(self).eeprom == old(self).eeprom,
            final(self).frame() == old(self).frame(),
            final(self).spec_state() == DriverState::Configured,
            ops_view(ops@) == spec_update_ops(busy_timeout_ms, spec_pack(old(self).frame())),
    {
        let mut ops = self.transfer_ops(busy_timeout_ms);
        let ghost part1 = ops@;
        let mut tail = self.power_on_ops();
        let mut tail2 = self.refresh_ops();
        let mut tail3 = self.power_off_ops();
        let ghost t1 = tail@;
        ops.append(&mut tail);
        let ghost part2 = ops@;
        let ghost t2 = tail2@;
        ops.append(&mut tail2);
        let ghost part3 = ops@;
        let ghost t3 = tail3@;
        ops.append(&mut tail3);
        proof {
            lemma_ops_view_add(part1, t1);
            lemma_ops_view_add(part2, t2);
            lemma_ops_view_add(part3, t3);
            assert(ops_view(ops@) =~= spec_update_ops(
                busy_timeout_ms,
                spec_pack(old(self).frame()),
            ));
        }
        ops
    }
}

} // verus!
