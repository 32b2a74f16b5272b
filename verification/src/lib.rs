//! A CHIP-8 core: memory, register file, instruction decoder and execution
//! engine, written so that every state change is described by a contract.

pub mod chip8;
pub mod memory;
pub mod opcode;
pub mod processor;
pub mod registers;
pub mod semantics;
pub mod text;

pub use crate::chip8::{Chip8, Halt};
pub use crate::memory::{Memory, MemoryError, MemorySnapshot};
pub use crate::opcode::Opcode;
pub use crate::processor::{Processor, ProcessorError, Reply, Request, Snapshot, State};
pub use crate::registers::{RegisterSnapshot, Registers};
