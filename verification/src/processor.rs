//! The execution engine: applies one decoded instruction to the machine.

use crate::chip8::Chip8;
use crate::memory::{MemoryError, MemorySnapshot};
use crate::opcode::Opcode;
use crate::registers::{RegisterSnapshot, Registers, RegistersView, FLAG};
use crate::semantics::{
    computed, cycle_outcome, cycled, next, outcome, resumed_with, ticked, MachineView, RequestView,
    FONT_START, GLYPH_SIZE, KEYS,
};
use vstd::prelude::*;
use vstd::slice::slice_to_vec;

verus! {

/// Why an instruction could not be executed.
#[derive(Clone, Copy, Debug, PartialEq, Eq, Structural)]
pub enum ProcessorError {
    /// The instruction touches memory outside `0x000..=0xFFF`.
    AddressOutOfRange,
    /// The word `code` is no instruction.
    InvalidOpcode { code: u16 },
    /// A call of a machine-code routine (`0nnn`).
    Unsupported,
    /// A call with the call stack full.
    StackOverflow,
    /// A return with the call stack empty.
    StackUnderflow,
}

impl From<MemoryError> for ProcessorError {
    fn from(err: MemoryError) -> (result: Self) {
        match err {
            MemoryError::AddressOutOfRange => ProcessorError::AddressOutOfRange,
        }
    }
}

impl vstd::std_specs::convert::FromSpecImpl<MemoryError> for ProcessorError {
    open spec fn obeys_from_spec() -> bool {
        true
    }

    open spec fn from_spec(err: MemoryError) -> Self {
        ProcessorError::AddressOutOfRange
    }
}

/// Whether the machine runs, waits, or has stopped for good.
#[derive(Clone, Copy, Debug, PartialEq, Eq, Structural)]
pub enum State {
    /// Instructions are executed.
    Running,
    /// The machine waits for a key press, which goes to register `x`.
    AwaitingKey { x: u8 },
    /// An instruction failed. Nothing is executed any more.
    Halted,
}

/// What an instruction asks of a collaborator.
#[derive(Debug, PartialEq, Eq)]
pub enum Request {
    /// Nothing is asked.
    Nothing,
    /// Clear the display. Answered by `Reply::Cleared`.
    ClearScreen,
    /// Draw `sprite`, one byte per row of eight pixels, at `(x, y)`.
    /// Answered by `Reply::Collided`.
    DrawSprite { x: u8, y: u8, sprite: Vec<u8> },
    /// Give a random byte. Answered by `Reply::RandomByte`.
    RandomByte,
    /// Say whether `key`, one of `0..16`, is down. Answered by
    /// `Reply::KeyDown`.
    KeyDown { key: u8 },
    /// Report the next key press, by a call of `Processor::resume`.
    KeyPress,
}

impl View for Request {
    type V = RequestView;

    open spec fn view(&self) -> RequestView {
        match *self {
            Request::Nothing => RequestView::Nothing,
            Request::ClearScreen => RequestView::ClearScreen,
            Request::DrawSprite { x, y, sprite } => RequestView::DrawSprite {
                x,
                y,
                sprite: sprite@,
            },
            Request::RandomByte => RequestView::RandomByte,
            Request::KeyDown { key } => RequestView::KeyDown { key },
            Request::KeyPress => RequestView::KeyPress,
        }
    }
}

/// What a collaborator answered.
#[derive(Clone, Copy, Debug, PartialEq, Eq, Structural)]
pub enum Reply {
    /// No answer: the first turn on every instruction.
    Nothing,
    /// The display is clear.
    Cleared,
    /// The sprite is drawn; the flag says whether a pixel collided.
    Collided(bool),
    /// The random byte.
    RandomByte(u8),
    /// Whether the key is down.
    KeyDown(bool),
}

/// The processor as plain values.
pub struct ProcessorView {
    /// The register file.
    pub registers: RegistersView,
    /// The machine's state.
    pub state: State,
}

/// What a machine held at one moment, for diagnostics. Whoever gets it
/// decides whether and how to show it: `dump` gives a listing of each part.
#[derive(Debug, PartialEq, Eq)]
pub struct Snapshot {
    /// The register file.
    pub registers: RegisterSnapshot,
    /// The memory.
    pub memory: MemorySnapshot,
}

/// The execution engine with its register file.
pub struct Processor {
    registers: Registers,
    state: State,
}

impl View for Processor {
    type V = ProcessorView;

    closed spec fn view(&self) -> ProcessorView {
        ProcessorView { registers: self.registers@, state: self.state }
    }
}

impl Processor {
    /// Holds of every processor that exists.
    #[verifier::type_invariant]
    pub open spec fn inv(self) -> bool {
        &&& self@.registers.wf()
        &&& (self@.state matches State::AwaitingKey { x } ==> x < 16)
    }

    /// A running processor with a fresh register file.
    pub fn new() -> (processor: Self)
        ensures
            processor@.registers == RegistersView::initial(),
            processor@.state == State::Running,
    {
        Self { registers: Registers::new(), state: State::Running }
    }

    /// The register file.
    pub fn registers(&self) -> (registers: &Registers)
        ensures
            registers@ == self@.registers,
    {
        &self.registers
    }

    /// The machine's state.
    pub fn state(&self) -> (state: State)
        ensures
            state == self@.state,
    {
        self.state
    }

    /// One turn on the instruction that `instruction` encodes.
    pub fn execute_from(system: &mut Chip8, instruction: u16, reply: Reply) -> (result: Result<
        Request,
        ProcessorError,
    >)
        ensures
            old(system)@.wf(),
            final(system)@.wf(),
            final(system)@ == next(old(system)@, crate::opcode::decode(instruction), reply),
            match result {
                Ok(request) => outcome(old(system)@, crate::opcode::decode(instruction), reply)
                    == Ok::<RequestView, ProcessorError>(request@),
                Err(e) => outcome(old(system)@, crate::opcode::decode(instruction), reply)
                    == Err::<RequestView, ProcessorError>(e),
            },
    {
        Processor::execute(system, Opcode::from(instruction), reply)
    }

    /// One turn on `operation`.
    ///
    /// A machine that is not running stays as it is. On a running machine
    /// an instruction that fails changes nothing and returns its error. An
    /// instruction that asks something of a collaborator, and finds no
    /// answer to it in `reply`, changes nothing and returns the request:
    /// the caller has it answered and takes another turn with the reply.
    /// Any other instruction runs to its end.
    ///
    /// The operands of `operation` must fit their fields, as those of every
    /// decoded instruction do; `Opcode::is_well_formed` tests it.
    pub fn execute(system: &mut Chip8, operation: Opcode, reply: Reply) -> (result: Result<
        Request,
        ProcessorError,
    >)
        requires
            operation.wf(),
        ensures
            old(system)@.wf(),
            final(system)@.wf(),
            final(system)@ == next(old(system)@, operation, reply),
            match result {
                Ok(request) => outcome(old(system)@, operation, reply) == Ok::<
                    RequestView,
                    ProcessorError,
                >(request@),
                Err(e) => outcome(old(system)@, operation, reply) == Err::<
                    RequestView,
                    ProcessorError,
                >(e),
            },
    {
        proof {
            use_type_invariant(&system.processor);
            use_type_invariant(&system.memory);
        }
        match system.processor.state {
            State::Running => {},
            State::AwaitingKey { .. } => {
                return Ok(Request::KeyPress);
            },
            State::Halted => {
                return Ok(Request::Nothing);
            },
        }
        let ghost before = system@;
        let result = match operation {
            Opcode::MachineRoutine { .. } => Err(ProcessorError::Unsupported),
            Opcode::Invalid { code } => Err(ProcessorError::InvalidOpcode { code }),
            Opcode::ClearScreen
            | Opcode::Random { .. }
            | Opcode::Draw { .. }
            | Opcode::SkipKeyDown { .. }
            | Opcode::SkipKeyUp { .. } => Processor::consult(system, operation, reply),
            Opcode::Return
            | Opcode::Jump { .. }
            | Opcode::Call { .. }
            | Opcode::JumpOffset { .. } => Processor::transfer(system, operation),
            Opcode::SkipEqualImmediate { .. }
            | Opcode::SkipNotEqualImmediate { .. }
            | Opcode::SkipEqual { .. }
            | Opcode::SkipNotEqual { .. } => Processor::skip(system, operation),
            Opcode::LoadImmediate { .. }
            | Opcode::AddImmediate { .. }
            | Opcode::Load { .. }
            | Opcode::Or { .. }
            | Opcode::And { .. }
            | Opcode::Xor { .. }
            | Opcode::Add { .. }
            | Opcode::Subtract { .. }
            | Opcode::ShiftRight { .. }
            | Opcode::SubtractFrom { .. }
            | Opcode::ShiftLeft { .. } => Processor::compute(system, operation),
            Opcode::StoreDecimal { .. }
            | Opcode::StoreRegisters { .. }
            | Opcode::LoadRegisters { .. } => Processor::transfer_block(system, operation),
            Opcode::LoadIndex { n } => {
                system.processor.registers.set_i(n);
                system.processor.registers.advance(2);
                Ok(Request::Nothing)
            },
            Opcode::ReadDelayTimer { x } => {
                let timer = system.processor.registers.delay_timer();
                system.processor.registers.write_v(x, timer);
                system.processor.registers.advance(2);
                Ok(Request::Nothing)
            },
            Opcode::AwaitKey { x } => {
                system.processor.state = State::AwaitingKey { x };
                Ok(Request::KeyPress)
            },
            Opcode::SetDelayTimer { x } => {
                let vx = system.processor.registers.read_v(x);
                system.processor.registers.set_delay_timer(vx);
                system.processor.registers.advance(2);
                Ok(Request::Nothing)
            },
            Opcode::SetSoundTimer { x } => {
                let vx = system.processor.registers.read_v(x);
                system.processor.registers.set_sound_timer(vx);
                system.processor.registers.advance(2);
                Ok(Request::Nothing)
            },
            Opcode::AddIndex { x } => {
                let vx = system.processor.registers.read_v(x);
                let i = system.processor.registers.i();
                system.processor.registers.set_i(i.wrapping_add(vx as u16));
                system.processor.registers.advance(2);
                Ok(Request::Nothing)
            },
            Opcode::LoadGlyph { x } => {
                let vx = system.processor.registers.read_v(x);
                system.processor.registers.set_i(FONT_START + vx as u16 * GLYPH_SIZE);
                system.processor.registers.advance(2);
                Ok(Request::Nothing)
            },
        };
        assert(turn(before, operation, reply, system@, result));
        result
    }

    /// A turn on an instruction that asks something of a collaborator.
    fn consult(system: &mut Chip8, operation: Opcode, reply: Reply) -> (result: Result<
        Request,
        ProcessorError,
    >)
        requires
            operation.wf(),
            old(system)@.wf(),
            old(system)@.state == State::Running,
            operation is ClearScreen || operation is Random || operation is Draw
                || operation is SkipKeyDown || operation is SkipKeyUp,
        ensures
            turn(old(system)@, operation, reply, final(system)@, result),
    {
        match operation {
            Opcode::ClearScreen => {
                match reply {
                    Reply::Cleared => {
                        system.processor.registers.advance(2);
                    },
                    _ => {
                        return Ok(Request::ClearScreen);
                    },
                }
            },
            Opcode::Random { x, k } => {
                match reply {
                    Reply::RandomByte(byte) => {
                        system.processor.registers.write_v(x, byte & k);
                        system.processor.registers.advance(2);
                    },
                    _ => {
                        return Ok(Request::RandomByte);
                    },
                }
            },
            Opcode::Draw { x, y, n } => {
                let i = system.processor.registers.i();
                let sprite = match system.memory.read_many(i, n as u16) {
                    Ok(bytes) => bytes,
                    Err(e) => {
                        return Err(ProcessorError::from(e));
                    },
                };
                match reply {
                    Reply::Collided(collided) => {
                        system.processor.registers.write_v(FLAG, if collided { 1 } else { 0 });
                        system.processor.registers.advance(2);
                    },
                    _ => {
                        let x = system.processor.registers.read_v(x);
                        let y = system.processor.registers.read_v(y);
                        return Ok(Request::DrawSprite { x, y, sprite: slice_to_vec(sprite) });
                    },
                }
            },
            Opcode::SkipKeyDown { x } => {
                let key = system.processor.registers.read_v(x);
                let down = if key < KEYS {
                    match reply {
                        Reply::KeyDown(down) => down,
                        _ => {
                            return Ok(Request::KeyDown { key });
                        },
                    }
                } else {
                    false
                };
                system.processor.registers.advance(if down { 4 } else { 2 });
            },
            Opcode::SkipKeyUp { x } => {
                let key = system.processor.registers.read_v(x);
                let down = if key < KEYS {
                    match reply {
                        Reply::KeyDown(down) => down,
                        _ => {
                            return Ok(Request::KeyDown { key });
                        },
                    }
                } else {
                    false
                };
                system.processor.registers.advance(if down { 2 } else { 4 });
            },
            _ => {},
        }
        Ok(Request::Nothing)
    }

    /// A turn on an instruction that sets the program counter itself.
    fn transfer(system: &mut Chip8, operation: Opcode) -> (result: Result<Request, ProcessorError>)
        requires
            operation.wf(),
            old(system)@.wf(),
            old(system)@.state == State::Running,
            operation is Return || operation is Jump || operation is Call
                || operation is JumpOffset,
        ensures
            forall|reply: Reply| turn(old(system)@, operation, reply, final(system)@, result),
    {
        match operation {
            Opcode::Return => {
                match system.processor.registers.pop_stack() {
                    Ok(_) => {},
                    Err(e) => {
                        return Err(e);
                    },
                }
            },
            Opcode::Jump { n } => {
                system.processor.registers.set_pc(n);
            },
            Opcode::Call { n } => {
                let back = system.processor.registers.pc().wrapping_add(2);
                match system.processor.registers.push_stack(back) {
                    Ok(_) => {},
                    Err(e) => {
                        return Err(e);
                    },
                }
                system.processor.registers.set_pc(n);
            },
            Opcode::JumpOffset { n } => {
                let v0 = system.processor.registers.read_v(0);
                system.processor.registers.set_pc(n.wrapping_add(v0 as u16));
            },
            _ => {},
        }
        Ok(Request::Nothing)
    }

    /// A turn on an instruction that compares and may skip the next one.
    fn skip(system: &mut Chip8, operation: Opcode) -> (result: Result<Request, ProcessorError>)
        requires
            operation.wf(),
            old(system)@.wf(),
            old(system)@.state == State::Running,
            operation is SkipEqualImmediate || operation is SkipNotEqualImmediate
                || operation is SkipEqual || operation is SkipNotEqual,
        ensures
            forall|reply: Reply| turn(old(system)@, operation, reply, final(system)@, result),
    {
        let taken = match operation {
            Opcode::SkipEqualImmediate { x, k } => system.processor.registers.read_v(x) == k,
            Opcode::SkipNotEqualImmediate { x, k } => system.processor.registers.read_v(x) != k,
            Opcode::SkipEqual { x, y } => system.processor.registers.read_v(x)
                == system.processor.registers.read_v(y),
            Opcode::SkipNotEqual { x, y } => system.processor.registers.read_v(x)
                != system.processor.registers.read_v(y),
            _ => false,
        };
        system.processor.registers.advance(if taken { 4 } else { 2 });
        Ok(Request::Nothing)
    }

    /// A turn on an instruction that computes a general register. The
    /// flag, where the instruction has one, is written after the result.
    fn compute(system: &mut Chip8, operation: Opcode) -> (result: Result<Request, ProcessorError>)
        requires
            operation.wf(),
            old(system)@.wf(),
            old(system)@.state == State::Running,
            operation is LoadImmediate || operation is AddImmediate || operation is Load
                || operation is Or || operation is And || operation is Xor || operation is Add
                || operation is Subtract || operation is ShiftRight || operation is SubtractFrom
                || operation is ShiftLeft,
        ensures
            forall|reply: Reply| turn(old(system)@, operation, reply, final(system)@, result),
    {
        let (x, vy) = match operation {
            Opcode::LoadImmediate { x, .. } | Opcode::AddImmediate { x, .. } => (x, 0),
            Opcode::Load { x, y }
            | Opcode::Or { x, y }
            | Opcode::And { x, y }
            | Opcode::Xor { x, y }
            | Opcode::Add { x, y }
            | Opcode::Subtract { x, y }
            | Opcode::ShiftRight { x, y }
            | Opcode::SubtractFrom { x, y }
            | Opcode::ShiftLeft { x, y } => (x, system.processor.registers.read_v(y)),
            _ => (0, 0),
        };
        let vx = system.processor.registers.read_v(x);
        let (value, flag) = Processor::arithmetic(operation, vx, vy);
        system.processor.registers.write_v(x, value);
        match flag {
            Some(bit) => {
                system.processor.registers.write_v(FLAG, if bit { 1 } else { 0 });
            },
            None => {},
        }
        system.processor.registers.advance(2);
        Ok(Request::Nothing)
    }

    /// The arithmetic of the instructions that compute a general register:
    /// from the values of registers `x` and `y` to the new value of
    /// register `x` and the flag.
    fn arithmetic(operation: Opcode, vx: u8, vy: u8) -> (result: (u8, Option<bool>))
        ensures
            result == computed(operation, vx, vy),
    {
        match operation {
            Opcode::LoadImmediate { k, .. } => (k, None),
            Opcode::AddImmediate { k, .. } => (vx.wrapping_add(k), None),
            Opcode::Load { .. } => (vy, None),
            Opcode::Or { .. } => (vx | vy, None),
            Opcode::And { .. } => (vx & vy, None),
            Opcode::Xor { .. } => (vx ^ vy, None),
            Opcode::Add { .. } => (vx.wrapping_add(vy), Some(vx as u16 + vy as u16 > 0xFF)),
            Opcode::Subtract { .. } => (vx.wrapping_sub(vy), Some(vx >= vy)),
            Opcode::ShiftRight { .. } => {
                assert(vx >> 1 == vx / 2 && (vx & 1 == 1 <==> vx % 2 == 1)) by (bit_vector);
                (vx >> 1, Some(vx & 1 == 1))
            },
            Opcode::SubtractFrom { .. } => (vy.wrapping_sub(vx), Some(vy >= vx)),
            Opcode::ShiftLeft { .. } => {
                assert(vx << 1 == (vx * 2) % 0x100 && (vx >> 7 == 1 <==> vx >= 128))
                    by (bit_vector);
                (vx << 1, Some(vx >> 7 == 1))
            },
            _ => (vx, None),
        }
    }

    /// A turn on an instruction that moves a run of bytes between the
    /// registers and memory at `I..`.
    fn transfer_block(system: &mut Chip8, operation: Opcode) -> (result: Result<
        Request,
        ProcessorError,
    >)
        requires
            operation.wf(),
            old(system)@.wf(),
            old(system)@.state == State::Running,
            operation is StoreDecimal || operation is StoreRegisters || operation is LoadRegisters,
        ensures
            forall|reply: Reply| turn(old(system)@, operation, reply, final(system)@, result),
    {
        match operation {
            Opcode::StoreDecimal { x } => {
                let vx = system.processor.registers.read_v(x);
                let i = system.processor.registers.i();
                let digits: [u8; 3] = [vx / 100, (vx / 10) % 10, vx % 10];
                match system.memory.copy(i, digits.as_slice()) {
                    Ok(_) => {},
                    Err(e) => {
                        return Err(ProcessorError::from(e));
                    },
                }
            },
            Opcode::StoreRegisters { x } => {
                match Processor::store_registers(system, x) {
                    Ok(_) => {},
                    Err(e) => {
                        return Err(e);
                    },
                }
            },
            Opcode::LoadRegisters { x } => {
                match Processor::load_registers(system, x) {
                    Ok(_) => {},
                    Err(e) => {
                        return Err(e);
                    },
                }
            },
            _ => {},
        }
        system.processor.registers.advance(2);
        Ok(Request::Nothing)
    }

    /// Copies the registers `V0..=Vx` to memory at `I..`. If they do not
    /// fit there, nothing changes and the result is `AddressOutOfRange`.
    fn store_registers(system: &mut Chip8, x: u8) -> (result: Result<(), ProcessorError>)
        requires
            x < 16,
            old(system)@.wf(),
        ensures
            final(system)@.wf(),
            crate::memory::in_range(old(system)@.registers.i as int, x + 1) ==> result.is_ok()
                && final(system)@ == old(system)@.with_memory(
                crate::memory::overlaid(
                    old(system)@.memory,
                    old(system)@.registers.i as int,
                    old(system)@.registers.v.subrange(0, x + 1),
                ),
            ),
            !crate::memory::in_range(old(system)@.registers.i as int, x + 1) ==> result == Err::<
                (),
                ProcessorError,
            >(ProcessorError::AddressOutOfRange) && final(system)@ == old(system)@,
    {
        let i = system.processor.registers.i();
        if i as usize + x as usize + 1 > crate::memory::MEMORY_SIZE {
            return Err(ProcessorError::AddressOutOfRange);
        }
        let ghost before = system@;
        let mut k: u8 = 0;
        while k <= x
            invariant
                x < 16,
                k <= x + 1,
                i == before.registers.i,
                i + x + 1 <= 4096,
                before.wf(),
                system@.wf(),
                system@ == before.with_memory(
                    crate::memory::overlaid(
                        before.memory,
                        i as int,
                        before.registers.v.subrange(0, k as int),
                    ),
                ),
            decreases x + 1 - k,
        {
            let val = system.processor.registers.read_v(k);
            let _ = system.memory.write(i + k as u16, val);
            k = k + 1;
        }
        Ok(())
    }

    /// Copies memory at `I..` to the registers `V0..=Vx`. If that reaches
    /// out of memory, nothing changes and the result is `AddressOutOfRange`.
    fn load_registers(system: &mut Chip8, x: u8) -> (result: Result<(), ProcessorError>)
        requires
            x < 16,
            old(system)@.wf(),
        ensures
            final(system)@.wf(),
            crate::memory::in_range(old(system)@.registers.i as int, x + 1) ==> result.is_ok()
                && final(system)@ == old(system)@.with_registers(
                RegistersView {
                    v: crate::memory::overlaid(
                        old(system)@.registers.v,
                        0,
                        old(system)@.memory.subrange(
                            old(system)@.registers.i as int,
                            old(system)@.registers.i + x + 1,
                        ),
                    ),
                    ..old(system)@.registers
                },
            ),
            !crate::memory::in_range(old(system)@.registers.i as int, x + 1) ==> result == Err::<
                (),
                ProcessorError,
            >(ProcessorError::AddressOutOfRange) && final(system)@ == old(system)@,
    {
        let i = system.processor.registers.i();
        if i as usize + x as usize + 1 > crate::memory::MEMORY_SIZE {
            return Err(ProcessorError::AddressOutOfRange);
        }
        let ghost before = system@;
        let mut k: u8 = 0;
        while k <= x
            invariant
                x < 16,
                k <= x + 1,
                i == before.registers.i,
                i + x + 1 <= 4096,
                before.wf(),
                system@.wf(),
                system@ == before.with_registers(
                    RegistersView {
                        v: crate::memory::overlaid(
                            before.registers.v,
                            0,
                            before.memory.subrange(i as int, i + k),
                        ),
                        ..before.registers
                    },
                ),
            decreases x + 1 - k,
        {
            match system.memory.read(i + k as u16) {
                Ok(val) => {
                    system.processor.registers.write_v(k, val);
                },
                Err(_) => {},
            }
            k = k + 1;
        }
        Ok(())
    }

    /// One cycle: a turn on the instruction that the program counter
    /// points at. Where no instruction can be fetched there, nothing
    /// changes and the result is `AddressOutOfRange`.
    pub fn cycle(system: &mut Chip8, reply: Reply) -> (result: Result<Request, ProcessorError>)
        ensures
            old(system)@.wf(),
            final(system)@.wf(),
            final(system)@ == cycled(old(system)@, reply),
            match result {
                Ok(request) => cycle_outcome(old(system)@, reply) == Ok::<
                    RequestView,
                    ProcessorError,
                >(request@),
                Err(e) => cycle_outcome(old(system)@, reply) == Err::<RequestView, ProcessorError>(
                    e,
                ),
            },
    {
        proof {
            use_type_invariant(&system.processor);
            use_type_invariant(&system.memory);
        }
        match system.processor.state {
            State::Running => {},
            State::AwaitingKey { .. } => {
                return Ok(Request::KeyPress);
            },
            State::Halted => {
                return Ok(Request::Nothing);
            },
        }
        let pc = system.processor.registers.pc();
        match system.memory.read_16(pc) {
            Ok(instruction) => Processor::execute_from(system, instruction, reply),
            Err(e) => Err(ProcessorError::from(e)),
        }
    }

    /// Reports the press of `key` to the machine. A machine that waits for
    /// a key takes a key that the keypad has, one of `0..16`: the key goes
    /// to the register that the waiting instruction named, the program
    /// counter moves on by 2, and the machine runs again. Else the machine
    /// stays as it is. Returns whether the machine took the key.
    pub fn resume(system: &mut Chip8, key: u8) -> (resumed: bool)
        ensures
            old(system)@.wf(),
            final(system)@.wf(),
            resumed == (old(system)@.state is AwaitingKey && key < KEYS),
            final(system)@ == resumed_with(old(system)@, key),
    {
        proof {
            use_type_invariant(&system.processor);
            use_type_invariant(&system.memory);
        }
        match system.processor.state {
            State::AwaitingKey { x } => {
                if key < KEYS {
                    system.processor.registers.write_v(x, key);
                    system.processor.registers.advance(2);
                    system.processor.state = State::Running;
                    true
                } else {
                    false
                }
            },
            _ => false,
        }
    }

    /// One tick of the 60 Hz clock: each timer that is not yet zero counts
    /// down by one. The timers of a halted machine stay as they are.
    pub fn tick(system: &mut Chip8)
        ensures
            old(system)@.wf(),
            final(system)@.wf(),
            final(system)@ == ticked(old(system)@),
    {
        proof {
            use_type_invariant(&system.processor);
            use_type_invariant(&system.memory);
        }
        match system.processor.state {
            State::Halted => {},
            _ => {
                system.processor.registers.tick_timers();
            },
        }
    }

    /// Halts the machine for good and returns a snapshot of its register
    /// file and memory, which stay as they are.
    pub fn halt(system: &mut Chip8) -> (snapshot: Snapshot)
        ensures
            old(system)@.wf(),
            final(system)@ == old(system)@.with_state(State::Halted),
            final(system)@.wf(),
            snapshot.registers@ == old(system)@.registers,
            snapshot.memory@ == old(system)@.memory,
    {
        proof {
            use_type_invariant(&system.processor);
            use_type_invariant(&system.memory);
        }
        system.processor.state = State::Halted;
        Snapshot {
            registers: system.processor.registers.snapshot(),
            memory: system.memory.snapshot(),
        }
    }
}

/// Whether a turn on `op` with `reply` that began on machine `before` may
/// end on machine `after` with `result`.
pub open spec fn turn(
    before: MachineView,
    op: Opcode,
    reply: Reply,
    after: MachineView,
    result: Result<Request, ProcessorError>,
) -> bool {
    &&& after.wf()
    &&& after == next(before, op, reply)
    &&& match result {
        Ok(request) => outcome(before, op, reply) == Ok::<RequestView, ProcessorError>(request@),
        Err(e) => outcome(before, op, reply) == Err::<RequestView, ProcessorError>(e),
    }
}

} // verus!
