//! What executing an instruction means, as functions on plain values.
//!
//! The machine never calls its collaborators (display, keypad, random number
//! generator). An instruction that consults one is executed in two turns:
//! the first returns the request and leaves the machine as it is, the
//! second is handed the collaborator's reply and completes the instruction.

use crate::memory::{in_range, overlaid, word_at};
use crate::opcode::{decode, Opcode};
use crate::processor::{ProcessorError, Reply, State};
use crate::registers::{wrap16, wrap8, RegistersView, FLAG};
use vstd::prelude::*;

verus! {

/// First address of the built-in font glyphs.
pub const FONT_START: u16 = 0x050;

/// Bytes per font glyph.
pub const GLYPH_SIZE: u16 = 5;

/// Number of keys on the keypad.
pub const KEYS: u8 = 16;

/// The whole machine as plain values.
#[verifier::ext_equal]
pub struct MachineView {
    /// The register file.
    pub registers: RegistersView,
    /// Whether the machine runs, waits for a key, or has halted.
    pub state: State,
    /// The 4096 bytes of memory.
    pub memory: Seq<u8>,
}

/// What an instruction asks of a collaborator, as plain values.
pub enum RequestView {
    /// Nothing is asked.
    Nothing,
    /// The display is to be cleared.
    ClearScreen,
    /// The display is to draw `sprite` at `(x, y)` and to say whether a
    /// pixel collided.
    DrawSprite { x: u8, y: u8, sprite: Seq<u8> },
    /// The random number generator is to give a byte.
    RandomByte,
    /// The keypad is to say whether `key` is down.
    KeyDown { key: u8 },
    /// The keypad is to report the next key press.
    KeyPress,
}

impl MachineView {
    /// A well-formed register file, 4096 bytes of memory, and a wait, if
    /// any, for a register that exists.
    pub open spec fn wf(self) -> bool {
        &&& self.registers.wf()
        &&& self.memory.len() == 4096
        &&& (self.state matches State::AwaitingKey { x } ==> x < 16)
    }

    /// `self` with the register file `registers`.
    pub open spec fn with_registers(self, registers: RegistersView) -> MachineView {
        MachineView { registers, ..self }
    }

    /// `self` with the memory `memory`.
    pub open spec fn with_memory(self, memory: Seq<u8>) -> MachineView {
        MachineView { memory, ..self }
    }

    /// `self` in state `state`.
    pub open spec fn with_state(self, state: State) -> MachineView {
        MachineView { state, ..self }
    }
}

/// The three decimal digits of `val`: hundreds, tens, ones.
pub open spec fn decimal_digits(val: u8) -> Seq<u8> {
    seq![(val / 100) as u8, ((val / 10) % 10) as u8, (val % 10) as u8]
}

/// What an instruction that computes a general register makes of `vx`,
/// the value of its register `x`, and `vy`, the value of its register `y`:
/// the new value of register `x`, and the flag where the instruction has
/// one.
///
/// Sums, differences and the left shift are taken modulo 256. The flag of
/// a sum says that it passed 255, the flag of a difference that nothing
/// was borrowed, the flag of a shift is the bit that was shifted out.
pub open spec fn computed(op: Opcode, vx: u8, vy: u8) -> (u8, Option<bool>) {
    match op {
        Opcode::LoadImmediate { k, .. } => (k, None),
        Opcode::AddImmediate { k, .. } => (wrap8(vx + k), None),
        Opcode::Load { .. } => (vy, None),
        Opcode::Or { .. } => (vx | vy, None),
        Opcode::And { .. } => (vx & vy, None),
        Opcode::Xor { .. } => (vx ^ vy, None),
        Opcode::Add { .. } => (wrap8(vx + vy), Some(vx + vy > 255)),
        Opcode::Subtract { .. } => (wrap8(vx - vy), Some(vx >= vy)),
        Opcode::ShiftRight { .. } => ((vx / 2) as u8, Some(vx % 2 == 1)),
        Opcode::SubtractFrom { .. } => (wrap8(vy - vx), Some(vy >= vx)),
        Opcode::ShiftLeft { .. } => (wrap8(vx * 2), Some(vx >= 128)),
        _ => (vx, None),
    }
}

/// The error that `op` raises on machine `m`, if it raises one.
pub open spec fn fault(m: MachineView, op: Opcode) -> Option<ProcessorError> {
    let r = m.registers;
    match op {
        Opcode::MachineRoutine { .. } => Some(ProcessorError::Unsupported),
        Opcode::Invalid { code } => Some(ProcessorError::InvalidOpcode { code }),
        Opcode::Return => if r.sp == 0 {
            Some(ProcessorError::StackUnderflow)
        } else {
            None
        },
        Opcode::Call { .. } => if r.sp >= 15 {
            Some(ProcessorError::StackOverflow)
        } else {
            None
        },
        Opcode::Draw { n, .. } => if in_range(r.i as int, n as int) {
            None
        } else {
            Some(ProcessorError::AddressOutOfRange)
        },
        Opcode::StoreDecimal { .. } => if in_range(r.i as int, 3) {
            None
        } else {
            Some(ProcessorError::AddressOutOfRange)
        },
        Opcode::StoreRegisters { x } => if in_range(r.i as int, x + 1) {
            None
        } else {
            Some(ProcessorError::AddressOutOfRange)
        },
        Opcode::LoadRegisters { x } => if in_range(r.i as int, x + 1) {
            None
        } else {
            Some(ProcessorError::AddressOutOfRange)
        },
        _ => None,
    }
}

/// What `op` asks of a collaborator on machine `m`.
pub open spec fn request(m: MachineView, op: Opcode) -> RequestView {
    let r = m.registers;
    match op {
        Opcode::ClearScreen => RequestView::ClearScreen,
        Opcode::Random { .. } => RequestView::RandomByte,
        Opcode::Draw { x, y, n } => RequestView::DrawSprite {
            x: r.v[x as int],
            y: r.v[y as int],
            sprite: m.memory.subrange(r.i as int, r.i + n),
        },
        Opcode::SkipKeyDown { x } => key_request(r.v[x as int]),
        Opcode::SkipKeyUp { x } => key_request(r.v[x as int]),
        _ => RequestView::Nothing,
    }
}

/// What an instruction that looks at key `key` asks of the keypad. The
/// keypad has the keys `0..16`: of any other key nothing is asked.
pub open spec fn key_request(key: u8) -> RequestView {
    if key < KEYS {
        RequestView::KeyDown { key }
    } else {
        RequestView::Nothing
    }
}

/// Whether `key` is down, going by `reply`. A key that the keypad does not
/// have is never down.
pub open spec fn key_down(key: u8, reply: Reply) -> bool {
    key < KEYS && reply->KeyDown_0
}

/// Whether `reply` is an answer to `request`. Where nothing is asked, any
/// reply will do: it is not looked at.
pub open spec fn answers(request: RequestView, reply: Reply) -> bool {
    match request {
        RequestView::Nothing => true,
        RequestView::ClearScreen => reply is Cleared,
        RequestView::DrawSprite { .. } => reply is Collided,
        RequestView::RandomByte => reply is RandomByte,
        RequestView::KeyDown { .. } => reply is KeyDown,
        RequestView::KeyPress => false,
    }
}

/// What a machine in state `state` is waiting for.
pub open spec fn pending(state: State) -> RequestView {
    match state {
        State::AwaitingKey { .. } => RequestView::KeyPress,
        _ => RequestView::Nothing,
    }
}

/// Machine `m` after `op` has run to its end, given the `reply` to what it
/// asked. Meant for an `op` that raises no error on `m`.
///
/// An instruction either sets the program counter itself (return, jump,
/// call, jump with offset) or is followed by the next one: then the program
/// counter moves on by 2, or by 4 where a skip is taken.
pub open spec fn applied(m: MachineView, op: Opcode, reply: Reply) -> MachineView {
    let r = m.registers;
    let v = r.v;
    match op {
        Opcode::MachineRoutine { .. } => m,
        Opcode::Invalid { .. } => m,
        Opcode::ClearScreen => m.with_registers(r.advanced(2)),
        Opcode::Return => m.with_registers(r.popped()),
        Opcode::Jump { n } => m.with_registers(r.with_pc(n)),
        Opcode::Call { n } => m.with_registers(r.pushed(wrap16(r.pc + 2)).with_pc(n)),
        Opcode::SkipEqualImmediate { x, k } => m.with_registers(
            r.advanced(if v[x as int] == k { 4 } else { 2 }),
        ),
        Opcode::SkipNotEqualImmediate { x, k } => m.with_registers(
            r.advanced(if v[x as int] != k { 4 } else { 2 }),
        ),
        Opcode::SkipEqual { x, y } => m.with_registers(
            r.advanced(if v[x as int] == v[y as int] { 4 } else { 2 }),
        ),
        Opcode::SkipNotEqual { x, y } => m.with_registers(
            r.advanced(if v[x as int] != v[y as int] { 4 } else { 2 }),
        ),
        Opcode::LoadImmediate { x, .. } | Opcode::AddImmediate { x, .. } => m.with_registers(
            r.with_result(x, computed(op, v[x as int], 0)).advanced(2),
        ),
        Opcode::Load { x, y }
        | Opcode::Or { x, y }
        | Opcode::And { x, y }
        | Opcode::Xor { x, y }
        | Opcode::Add { x, y }
        | Opcode::Subtract { x, y }
        | Opcode::ShiftRight { x, y }
        | Opcode::SubtractFrom { x, y }
        | Opcode::ShiftLeft { x, y } => m.with_registers(
            r.with_result(x, computed(op, v[x as int], v[y as int])).advanced(2),
        ),
        Opcode::LoadIndex { n } => m.with_registers(r.with_i(n).advanced(2)),
        Opcode::JumpOffset { n } => m.with_registers(r.with_pc(wrap16(n + v[0]))),
        Opcode::Random { x, k } => m.with_registers(
            r.with_v(x, reply->RandomByte_0 & k).advanced(2),
        ),
        Opcode::Draw { .. } => m.with_registers(r.with_flag(reply->Collided_0).advanced(2)),
        Opcode::SkipKeyDown { x } => m.with_registers(
            r.advanced(if key_down(v[x as int], reply) { 4 } else { 2 }),
        ),
        Opcode::SkipKeyUp { x } => m.with_registers(
            r.advanced(if !key_down(v[x as int], reply) { 4 } else { 2 }),
        ),
        Opcode::ReadDelayTimer { x } => m.with_registers(r.with_v(x, r.delay_timer).advanced(2)),
        Opcode::AwaitKey { x } => m.with_state(State::AwaitingKey { x }),
        Opcode::SetDelayTimer { x } => m.with_registers(
            RegistersView { delay_timer: v[x as int], ..r }.advanced(2),
        ),
        Opcode::SetSoundTimer { x } => m.with_registers(
            RegistersView { sound_timer: v[x as int], ..r }.advanced(2),
        ),
        Opcode::AddIndex { x } => m.with_registers(
            r.with_i(wrap16(r.i + v[x as int])).advanced(2),
        ),
        Opcode::LoadGlyph { x } => m.with_registers(
            r.with_i((FONT_START + v[x as int] * GLYPH_SIZE) as u16).advanced(2),
        ),
        Opcode::StoreDecimal { x } => MachineView {
            memory: overlaid(m.memory, r.i as int, decimal_digits(v[x as int])),
            registers: r.advanced(2),
            ..m
        },
        Opcode::StoreRegisters { x } => MachineView {
            memory: overlaid(m.memory, r.i as int, v.subrange(0, x + 1)),
            registers: r.advanced(2),
            ..m
        },
        Opcode::LoadRegisters { x } => m.with_registers(
            RegistersView {
                v: overlaid(v, 0, m.memory.subrange(r.i as int, r.i + x + 1)),
                ..r
            }.advanced(2),
        ),
    }
}

/// Whether `op` sets the program counter itself. Every other instruction
/// is followed by the next one in memory, or by the one after it where it
/// skips.
pub open spec fn transfers_control(op: Opcode) -> bool {
    op is MachineRoutine || op is Return || op is Jump || op is Call || op is JumpOffset
}

/// Whether `op` is one of the instructions that may skip the next one.
pub open spec fn may_skip(op: Opcode) -> bool {
    op is SkipEqualImmediate || op is SkipNotEqualImmediate || op is SkipEqual
        || op is SkipNotEqual || op is SkipKeyDown || op is SkipKeyUp
}

/// Whether a turn on `op` with `reply` runs the instruction to its end:
/// the machine is running, `op` raises no error, and `reply` answers what
/// `op` asks.
pub open spec fn completes(m: MachineView, op: Opcode, reply: Reply) -> bool {
    &&& m.state == State::Running
    &&& fault(m, op) is None
    &&& answers(request(m, op), reply)
}

/// Machine `m` after a turn on `op` with `reply`: changed only where the
/// turn runs the instruction to its end.
pub open spec fn next(m: MachineView, op: Opcode, reply: Reply) -> MachineView {
    if completes(m, op, reply) {
        applied(m, op, reply)
    } else {
        m
    }
}

/// What a turn on `op` with `reply` returns on machine `m`.
///
/// A machine that is not running is asked nothing of and says what it waits
/// for. Else an error of `op` comes first. Else, where `reply` does not
/// answer what `op` asks, the request is returned. Else the instruction has
/// run, and the result says what the machine waits for now: a key press
/// after `AwaitKey`, nothing after any other instruction.
pub open spec fn outcome(m: MachineView, op: Opcode, reply: Reply) -> Result<
    RequestView,
    ProcessorError,
> {
    if m.state != State::Running {
        Ok(pending(m.state))
    } else if fault(m, op) is Some {
        Err(fault(m, op)->Some_0)
    } else if !answers(request(m, op), reply) {
        Ok(request(m, op))
    } else {
        Ok(pending(applied(m, op, reply).state))
    }
}

/// The instruction that the program counter of `m` points at, or
/// `AddressOutOfRange` if it does not point at two bytes in memory.
pub open spec fn fetched(m: MachineView) -> Result<Opcode, ProcessorError> {
    if in_range(m.registers.pc as int, 2) {
        Ok(decode(word_at(m.memory, m.registers.pc as int)))
    } else {
        Err(ProcessorError::AddressOutOfRange)
    }
}

/// Machine `m` after one cycle with `reply`: a turn on the instruction that
/// the program counter points at. A cycle that cannot fetch changes nothing.
pub open spec fn cycled(m: MachineView, reply: Reply) -> MachineView {
    match fetched(m) {
        Ok(op) => next(m, op, reply),
        Err(_) => m,
    }
}

/// What one cycle with `reply` returns on machine `m`. A machine that is
/// not running fetches nothing.
pub open spec fn cycle_outcome(m: MachineView, reply: Reply) -> Result<
    RequestView,
    ProcessorError,
> {
    if m.state != State::Running {
        Ok(pending(m.state))
    } else {
        match fetched(m) {
            Ok(op) => outcome(m, op, reply),
            Err(e) => Err(e),
        }
    }
}

/// Machine `m` after the press of `key` was reported to it. A machine that
/// waits for a key takes a key that the keypad has: the key goes to the
/// register that the waiting instruction named, the program counter moves
/// on by 2, and the machine runs again.
pub open spec fn resumed_with(m: MachineView, key: u8) -> MachineView {
    match m.state {
        State::AwaitingKey { x } => if key < KEYS {
            MachineView {
                registers: m.registers.with_v(x, key).advanced(2),
                state: State::Running,
                ..m
            }
        } else {
            m
        },
        _ => m,
    }
}

/// Machine `m` after one tick of the 60 Hz clock: the timers count down
/// unless the machine has halted.
pub open spec fn ticked(m: MachineView) -> MachineView {
    if m.state == State::Halted {
        m
    } else {
        m.with_registers(m.registers.ticked())
    }
}

/// A turn keeps a machine well formed: the stack pointer stays within the
/// stack, and memory and the register file keep their sizes.
pub proof fn lemma_turn_keeps_wf(m: MachineView, op: Opcode, reply: Reply)
    requires
        m.wf(),
        op.wf(),
    ensures
        next(m, op, reply).wf(),
{
}

/// A turn that returns an error, or a request to a collaborator, leaves
/// the machine as it was; and a turn changes the state of the machine only
/// by making it wait for a key, on `AwaitKey`.
pub proof fn lemma_turn_is_all_or_nothing(m: MachineView, op: Opcode, reply: Reply)
    requires
        m.wf(),
        op.wf(),
    ensures
        outcome(m, op, reply) is Err ==> next(m, op, reply) == m,
        outcome(m, op, reply) matches Ok(asked) && asked != RequestView::Nothing && asked
            != RequestView::KeyPress ==> next(m, op, reply) == m,
        next(m, op, reply).state != m.state ==> m.state == State::Running && op is AwaitKey
            && next(m, op, reply).state is AwaitingKey,
{
}

/// An instruction that asks something of a collaborator runs to its end
/// on the turn that brings an answer: two turns are enough.
pub proof fn lemma_answer_completes(m: MachineView, op: Opcode, first: Reply, second: Reply)
    requires
        m.wf(),
        op.wf(),
        outcome(m, op, first) matches Ok(asked) && asked != RequestView::Nothing && asked
            != RequestView::KeyPress && answers(asked, second),
    ensures
        next(m, op, first) == m,
        completes(m, op, second),
        outcome(m, op, second) == Ok::<RequestView, ProcessorError>(RequestView::Nothing),
{
}

/// An instruction that does not set the program counter itself moves it
/// on by 2 when it has run to its end, or by 4 if it is a skip that is
/// taken. The wait for a key moves it on when the key press comes, not
/// before.
pub proof fn lemma_sequential_instructions_advance(m: MachineView, op: Opcode, reply: Reply)
    requires
        m.wf(),
        op.wf(),
        completes(m, op, reply),
        !transfers_control(op),
    ensures
        op is AwaitKey ==> next(m, op, reply).registers.pc == m.registers.pc,
        !(op is AwaitKey) && !may_skip(op) ==> next(m, op, reply).registers.pc == wrap16(
            m.registers.pc + 2,
        ),
        may_skip(op) ==> next(m, op, reply).registers.pc == wrap16(m.registers.pc + 2) || next(
            m,
            op,
            reply,
        ).registers.pc == wrap16(m.registers.pc + 4),
{
}

/// Loading an immediate into register `x` sets that register to the
/// immediate and moves the program counter on by 2. Every other general
/// register, the index register, the stack, the timers and memory stay as
/// they were.
pub proof fn lemma_load_immediate(m: MachineView, x: u8, k: u8, reply: Reply)
    requires
        m.wf(),
        m.state == State::Running,
        x < 16,
    ensures
        outcome(m, Opcode::LoadImmediate { x, k }, reply) == Ok::<RequestView, ProcessorError>(
            RequestView::Nothing,
        ),
        ({
            let after = next(m, Opcode::LoadImmediate { x, k }, reply);
            &&& after.registers.v[x as int] == k
            &&& after.registers.pc == (m.registers.pc + 2) % 0x1_0000
            &&& (m.registers.pc + 2 <= u16::MAX ==> after.registers.pc == m.registers.pc + 2)
            &&& (forall|j: int| 0 <= j < 16 && j != x ==> after.registers.v[j] == m.registers.v[j])
            &&& after.registers.i == m.registers.i
            &&& after.registers.sp == m.registers.sp
            &&& after.registers.stack == m.registers.stack
            &&& after.registers.delay_timer == m.registers.delay_timer
            &&& after.registers.sound_timer == m.registers.sound_timer
            &&& after.memory == m.memory
            &&& after.state == m.state
        }),
{
}

/// Adding register `y` to register `x`, neither of them the flag
/// register, leaves the sum modulo 256 in register `x` and sets the flag
/// register to 1 if the sum passed 255 and to 0 if it did not.
pub proof fn lemma_add(m: MachineView, x: u8, y: u8, reply: Reply)
    requires
        m.wf(),
        m.state == State::Running,
        x < FLAG,
        y < FLAG,
    ensures
        outcome(m, Opcode::Add { x, y }, reply) == Ok::<RequestView, ProcessorError>(
            RequestView::Nothing,
        ),
        ({
            let sum = m.registers.v[x as int] + m.registers.v[y as int];
            let after = next(m, Opcode::Add { x, y }, reply);
            &&& after.registers.v[x as int] == sum % 256
            &&& (sum > 255 ==> after.registers.v[FLAG as int] == 1)
            &&& (sum <= 255 ==> after.registers.v[FLAG as int] == 0)
        }),
{
}

/// In an instruction that computes a flag, the flag is written last:
/// with the flag register as the destination, the flag register ends up
/// holding the flag, not the result.
pub proof fn lemma_flag_is_written_last(m: MachineView, op: Opcode, y: u8, reply: Reply)
    requires
        m.wf(),
        m.state == State::Running,
        y < 16,
        op == (Opcode::Add { x: FLAG, y }) || op == (Opcode::Subtract { x: FLAG, y }) || op == (
        Opcode::SubtractFrom { x: FLAG, y }) || op == (Opcode::ShiftRight { x: FLAG, y }) || op
            == (Opcode::ShiftLeft { x: FLAG, y }),
    ensures
        computed(op, m.registers.v[FLAG as int], m.registers.v[y as int]).1 is Some,
        next(m, op, reply).registers.v[FLAG as int] == (if computed(
            op,
            m.registers.v[FLAG as int],
            m.registers.v[y as int],
        ).1->Some_0 {
            1u8
        } else {
            0u8
        }),
{
}

/// A call followed by a return brings the program counter to the
/// instruction after the call and the stack pointer to where it was.
pub proof fn lemma_call_then_return(m: MachineView, n: u16, first: Reply, second: Reply)
    requires
        m.wf(),
        m.state == State::Running,
        n < 0x1000,
        m.registers.sp < 15,
    ensures
        outcome(m, Opcode::Call { n }, first) == Ok::<RequestView, ProcessorError>(
            RequestView::Nothing,
        ),
        ({
            let called = next(m, Opcode::Call { n }, first);
            let returned = next(called, Opcode::Return, second);
            &&& called.registers.pc == n
            &&& called.registers.sp == m.registers.sp + 1
            &&& outcome(called, Opcode::Return, second) == Ok::<RequestView, ProcessorError>(
                RequestView::Nothing,
            )
            &&& returned.registers.pc == (m.registers.pc + 2) % 0x1_0000
            &&& (m.registers.pc + 2 <= u16::MAX ==> returned.registers.pc == m.registers.pc + 2)
            &&& returned.registers.sp == m.registers.sp
        }),
{
}

/// A return on an empty stack, and a call on a full one, fail and leave
/// the program counter where it was.
pub proof fn lemma_stack_limits(m: MachineView, n: u16, reply: Reply)
    requires
        m.wf(),
        m.state == State::Running,
    ensures
        m.registers.sp == 0 <==> outcome(m, Opcode::Return, reply) == Err::<
            RequestView,
            ProcessorError,
        >(ProcessorError::StackUnderflow),
        m.registers.sp == 0 ==> next(m, Opcode::Return, reply) == m,
        m.registers.sp == 15 <==> outcome(m, Opcode::Call { n }, reply) == Err::<
            RequestView,
            ProcessorError,
        >(ProcessorError::StackOverflow),
        m.registers.sp == 15 ==> next(m, Opcode::Call { n }, reply) == m,
{
}

/// A machine waits for a key exactly from its turn on `AwaitKey` until a
/// key press is delivered: the key press goes to the register that the
/// instruction named, the program counter moves on by 2, and the machine
/// runs again.
pub proof fn lemma_await_then_resume(m: MachineView, x: u8, key: u8, reply: Reply)
    requires
        m.wf(),
        m.state == State::Running,
        x < 16,
        key < KEYS,
    ensures
        outcome(m, Opcode::AwaitKey { x }, reply) == Ok::<RequestView, ProcessorError>(
            RequestView::KeyPress,
        ),
        ({
            let waiting = next(m, Opcode::AwaitKey { x }, reply);
            let resumed = resumed_with(waiting, key);
            &&& waiting == m.with_state(State::AwaitingKey { x })
            &&& forall|op: Opcode, other: Reply| next(waiting, op, other) == waiting
            &&& resumed.state == State::Running
            &&& resumed.registers.v[x as int] == key
            &&& resumed.registers.pc == (m.registers.pc + 2) % 0x1_0000
            &&& resumed.wf()
        }),
{
}

/// A halted machine stays halted: no turn, cycle or key press changes it.
pub proof fn lemma_halted_is_final(m: MachineView, op: Opcode, reply: Reply, key: u8)
    requires
        m.state == State::Halted,
    ensures
        next(m, op, reply) == m,
        cycled(m, reply) == m,
        resumed_with(m, key) == m,
        ticked(m) == m,
        outcome(m, op, reply) == Ok::<RequestView, ProcessorError>(RequestView::Nothing),
        cycle_outcome(m, reply) == Ok::<RequestView, ProcessorError>(RequestView::Nothing),
{
}

} // verus!
