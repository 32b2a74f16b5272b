//! The machine: a processor and its memory.

use crate::memory::{in_range, overlaid, Memory, MemoryError};
use crate::processor::{Processor, ProcessorError, Reply, Request, Snapshot, State};
use crate::registers::RegistersView;
use crate::semantics::{cycle_outcome, cycled, MachineView, RequestView, FONT_START};
use vstd::prelude::*;

verus! {

/// Why a machine halted, and what it held when it did.
#[derive(Debug, PartialEq, Eq)]
pub struct Halt {
    /// The error of the instruction that failed.
    pub error: ProcessorError,
    /// The machine as the failing instruction found it.
    pub snapshot: Box<Snapshot>,
}

/// Whether a font of `font` bytes and a program of `program` bytes both
/// fit in memory at their addresses.
pub open spec fn loadable(font: int, program: int) -> bool {
    in_range(FONT_START as int, font) && in_range(crate::registers::PROGRAM_START as int, program)
}

/// A CHIP-8 machine.
pub struct Chip8 {
    /// The execution engine and its register file.
    pub processor: Processor,
    /// The 4 KiB of memory.
    pub memory: Memory,
}

impl View for Chip8 {
    type V = MachineView;

    open spec fn view(&self) -> MachineView {
        MachineView {
            registers: self.processor@.registers,
            state: self.processor@.state,
            memory: self.memory@,
        }
    }
}

impl Chip8 {
    /// A running machine with zeroed memory and a fresh register file.
    pub fn new() -> (machine: Self)
        ensures
            machine@.wf(),
            machine@.registers == RegistersView::initial(),
            machine@.state == State::Running,
            machine@.memory == Seq::new(4096, |a: int| 0u8),
    {
        Self { processor: Processor::new(), memory: Memory::new() }
    }

    /// Loads the font glyphs at `0x050` and then the program at `0x200`.
    /// If one of the two does not fit in memory, nothing changes and the
    /// result is `AddressOutOfRange`.
    pub fn init(&mut self, font: &[u8], program: &[u8]) -> (result: Result<(), MemoryError>)
        ensures
            final(self)@.wf(),
            loadable(font@.len() as int, program@.len() as int) ==> result.is_ok() && final(self)@
                == old(self)@.with_memory(
                overlaid(
                    overlaid(old(self)@.memory, FONT_START as int, font@),
                    crate::registers::PROGRAM_START as int,
                    program@,
                ),
            ),
            !loadable(font@.len() as int, program@.len() as int) ==> result == Err::<
                (),
                MemoryError,
            >(MemoryError::AddressOutOfRange) && final(self)@ == old(self)@,
    {
        proof {
            use_type_invariant(&self.processor);
            use_type_invariant(&self.memory);
        }
        if font.len() > crate::memory::MEMORY_SIZE - FONT_START as usize || program.len()
            > crate::memory::MEMORY_SIZE - crate::registers::PROGRAM_START as usize {
            return Err(MemoryError::AddressOutOfRange);
        }
        let _ = self.memory.copy(FONT_START, font);
        let _ = self.memory.copy(crate::registers::PROGRAM_START, program);
        Ok(())
    }

    /// One cycle of the machine: fetches the instruction at the program
    /// counter, decodes it and takes a turn on it with `reply`. If that
    /// fails, the machine halts, and the error is returned with a snapshot
    /// of the machine. A machine that waits for a key or has halted stays
    /// as it is.
    pub fn cycle(&mut self, reply: Reply) -> (result: Result<Request, Halt>)
        ensures
            old(self)@.wf(),
            final(self)@.wf(),
            match result {
                Ok(request) => cycle_outcome(old(self)@, reply) == Ok::<
                    RequestView,
                    ProcessorError,
                >(request@) && final(self)@ == cycled(old(self)@, reply),
                Err(halt) => cycle_outcome(old(self)@, reply) == Err::<RequestView, ProcessorError>(
                    halt.error,
                ) && final(self)@ == old(self)@.with_state(State::Halted)
                    && halt.snapshot.registers@ == old(self)@.registers && halt.snapshot.memory@
                    == old(self)@.memory,
            },
    {
        match Processor::cycle(self, reply) {
            Ok(request) => Ok(request),
            Err(error) => {
                let snapshot = Box::new(Processor::halt(self));
                Err(Halt { error, snapshot })
            },
        }
    }
}

} // verus!
