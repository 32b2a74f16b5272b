//! The register file: program counter, call stack, general registers, index
//! register and the two timers.

use crate::processor::ProcessorError;
use crate::text::{hex, hex_digit, hex_digit_of, padded, prefixed_hex, push_hex, push_prefixed_hex};
use vstd::prelude::*;

verus! {

/// Where execution starts: the first address of the program area.
pub const PROGRAM_START: u16 = 0x200;

/// Index of the general register that doubles as the flag register.
pub const FLAG: u8 = 0xF;

/// `n` reduced to sixteen bits: register arithmetic on addresses wraps.
pub open spec fn wrap16(n: int) -> u16 {
    (n % 0x1_0000) as u16
}

/// `n` reduced to eight bits: arithmetic on general registers wraps.
pub open spec fn wrap8(n: int) -> u8 {
    (n % 0x100) as u8
}

/// The register file as plain values.
///
/// The call stack grows upwards from slot 1: `sp` is the slot of the return
/// address that was pushed last, and `sp == 0` means that the stack is empty.
/// Slot 0 is never written.
#[verifier::ext_equal]
pub struct RegistersView {
    /// Program counter.
    pub pc: u16,
    /// Stack pointer: the number of return addresses on the stack.
    pub sp: u8,
    /// The sixteen stack slots.
    pub stack: Seq<u16>,
    /// The general registers `V0..=VF`.
    pub v: Seq<u8>,
    /// The index register `I`.
    pub i: u16,
    /// Delay timer.
    pub delay_timer: u8,
    /// Sound timer.
    pub sound_timer: u8,
}

impl RegistersView {
    /// Sixteen registers, sixteen stack slots, and a stack pointer that
    /// names one of them.
    pub open spec fn wf(self) -> bool {
        &&& self.sp <= 15
        &&& self.stack.len() == 16
        &&& self.v.len() == 16
    }

    /// The register file of a machine that has not run yet.
    pub open spec fn initial() -> RegistersView {
        RegistersView {
            pc: PROGRAM_START,
            sp: 0,
            stack: Seq::new(16, |k: int| 0u16),
            v: Seq::new(16, |k: int| 0u8),
            i: 0,
            delay_timer: 0,
            sound_timer: 0,
        }
    }

    /// The slot that the stack pointer names.
    pub open spec fn top(self) -> u16 {
        self.stack[self.sp as int]
    }

    /// `self` with the program counter at `pc`.
    pub open spec fn with_pc(self, pc: u16) -> RegistersView {
        RegistersView { pc, ..self }
    }

    /// `self` with the index register at `i`.
    pub open spec fn with_i(self, i: u16) -> RegistersView {
        RegistersView { i, ..self }
    }

    /// `self` with general register `x` set to `val`.
    pub open spec fn with_v(self, x: u8, val: u8) -> RegistersView {
        RegistersView { v: self.v.update(x as int, val), ..self }
    }

    /// `self` with the flag register set to 1 if `bit` holds and to 0 if not.
    pub open spec fn with_flag(self, bit: bool) -> RegistersView {
        self.with_v(FLAG, if bit { 1u8 } else { 0u8 })
    }

    /// `self` with `result.0` in general register `x` and then, where
    /// `result.1` holds a flag, that flag in the flag register. With the
    /// flag register as `x`, the flag is what stays.
    pub open spec fn with_result(self, x: u8, result: (u8, Option<bool>)) -> RegistersView {
        match result.1 {
            Some(bit) => self.with_v(x, result.0).with_flag(bit),
            None => self.with_v(x, result.0),
        }
    }

    /// `self` with the program counter moved `by` bytes on.
    pub open spec fn advanced(self, by: int) -> RegistersView {
        self.with_pc(wrap16(self.pc + by))
    }

    /// `self` after one more return address: the stack pointer moves up and
    /// `addr` fills the slot it then names.
    pub open spec fn pushed(self, addr: u16) -> RegistersView {
        RegistersView {
            sp: (self.sp + 1) as u8,
            stack: self.stack.update(self.sp + 1, addr),
            ..self
        }
    }

    /// `self` after a return: the program counter takes the top of the
    /// stack and the stack pointer moves down.
    pub open spec fn popped(self) -> RegistersView {
        RegistersView { pc: self.top(), sp: (self.sp - 1) as u8, ..self }
    }

    /// `self` after one tick of the 60 Hz clock: each timer that is not yet
    /// zero counts down by one.
    pub open spec fn ticked(self) -> RegistersView {
        RegistersView {
            delay_timer: if self.delay_timer > 0 { (self.delay_timer - 1) as u8 } else { 0 },
            sound_timer: if self.sound_timer > 0 { (self.sound_timer - 1) as u8 } else { 0 },
            ..self
        }
    }
}

/// A push followed by a pop gives the pushed address back, in the result
/// and in the program counter, and brings the stack pointer to where it
/// was. The slot that was written keeps the address; nothing else changes.
pub proof fn lemma_push_then_pop(r: RegistersView, addr: u16)
    requires
        r.wf(),
        r.sp < 15,
    ensures
        r.pushed(addr).wf(),
        r.pushed(addr).sp == r.sp + 1,
        r.pushed(addr).top() == addr,
        r.pushed(addr).popped() == (RegistersView {
            pc: addr,
            stack: r.stack.update(r.sp + 1, addr),
            ..r
        }),
        r.pushed(addr).popped().sp == r.sp,
        r.pushed(addr).popped().wf(),
{
}

/// The line of the stack listing for `slot`: a `>` marks the slot that
/// the stack pointer names, and the address has four digits.
pub open spec fn stack_line(r: RegistersView, slot: int) -> Seq<char> {
    "  "@ + seq![if r.sp == slot { '>' } else { ' ' }] + " 0x"@ + hex(r.stack[slot] as int, 4)
        + "\n"@
}

/// The stack listing from slot 15 down to slot `16 - count`.
pub open spec fn stack_lines(r: RegistersView, count: nat) -> Seq<char>
    decreases count,
{
    if count == 0 {
        Seq::empty()
    } else {
        stack_lines(r, (count - 1) as nat) + stack_line(r, 16 - count)
    }
}

/// The line of the register listing for the pair `V(2 * row)`,
/// `V(2 * row + 1)`: the first value fills eight columns.
pub open spec fn register_line(r: RegistersView, row: int) -> Seq<char> {
    seq!['V', hex_digit(2 * row)] + "  "@ + padded(prefixed_hex(r.v[2 * row] as int), 8)
        + seq!['V', hex_digit(2 * row + 1)] + "  "@ + prefixed_hex(r.v[2 * row + 1] as int)
        + "\n"@
}

/// The register listing for the first `count` pairs.
pub open spec fn register_lines(r: RegistersView, count: nat) -> Seq<char>
    decreases count,
{
    if count == 0 {
        Seq::empty()
    } else {
        register_lines(r, (count - 1) as nat) + register_line(r, count - 1)
    }
}

/// The text of a dump of `r`: the program counter, the stack pointer, the
/// sixteen stack slots from the last to the first, the general registers
/// in pairs, the index register and the two timers. Numbers are in
/// upper-case hexadecimal after `0x`.
pub open spec fn dump_text(r: RegistersView) -> Seq<char> {
    "PC  "@ + prefixed_hex(r.pc as int) + "\n"@
        + "SP  "@ + prefixed_hex(r.sp as int) + "\n"@
        + "stack:\n"@ + stack_lines(r, 16) + "\n"@
        + "registers:\n"@ + register_lines(r, 8)
        + "I   "@ + prefixed_hex(r.i as int) + "\n"@
        + "DT  "@ + prefixed_hex(r.delay_timer as int) + "\n"@
        + "ST  "@ + prefixed_hex(r.sound_timer as int) + "\n"@
}

/// The register file.
#[derive(Debug, PartialEq, Eq)]
pub struct Registers {
    /// Program counter.
    pc: u16,
    /// Stack pointer.
    sp: u8,
    /// Return addresses of the subroutines that are running.
    stack: [u16; 16],
    /// General purpose registers `V0..=VF`.
    v: [u8; 16],
    /// Index register.
    i: u16,
    /// Delay timer.
    delay_timer: u8,
    /// Sound timer.
    sound_timer: u8,
}

/// A register file that was copied from a machine, for diagnostics.
pub type RegisterSnapshot = Registers;

impl View for Registers {
    type V = RegistersView;

    closed spec fn view(&self) -> RegistersView {
        RegistersView {
            pc: self.pc,
            sp: self.sp,
            stack: self.stack@,
            v: self.v@,
            i: self.i,
            delay_timer: self.delay_timer,
            sound_timer: self.sound_timer,
        }
    }
}

impl Registers {
    /// Holds of every register file that exists.
    #[verifier::type_invariant]
    pub open spec fn inv(self) -> bool {
        self@.wf()
    }

    /// The register file of a fresh machine: the program counter at
    /// `0x200`, everything else zero.
    pub fn new() -> (registers: Self)
        ensures
            registers@ == RegistersView::initial(),
    {
        Self {
            pc: PROGRAM_START,
            sp: 0,
            stack: [0; 16],
            v: [0; 16],
            i: 0,
            delay_timer: 0,
            sound_timer: 0,
        }
    }

    /// General register `i`.
    pub fn read_v(&self, i: u8) -> (val: u8)
        requires
            i < 16,
        ensures
            self@.wf(),
            val == self@.v[i as int],
    {
        proof {
            use_type_invariant(self);
        }
        self.v[i as usize]
    }

    /// Sets general register `i` to `val`.
    pub fn write_v(&mut self, i: u8, val: u8)
        requires
            i < 16,
        ensures
            final(self)@ == old(self)@.with_v(i, val),
            final(self)@.wf(),
        no_unwind
    {
        proof {
            use_type_invariant(&*self);
        }
        self.v[i as usize] = val;
    }

    /// The stack slot that the stack pointer names. On an empty stack that
    /// is slot 0, which holds 0.
    pub fn peek_stack(&self) -> (addr: u16)
        ensures
            self@.wf(),
            addr == self@.top(),
    {
        proof {
            use_type_invariant(self);
        }
        self.stack[self.sp as usize]
    }

    /// Returns from a subroutine: takes the top of the stack into the
    /// program counter, moves the stack pointer down and returns the
    /// address. On an empty stack nothing changes and the result is
    /// `StackUnderflow`.
    pub fn pop_stack(&mut self) -> (result: Result<u16, ProcessorError>)
        ensures
            final(self)@.wf(),
            old(self)@.sp > 0 ==> result == Ok::<u16, ProcessorError>(old(self)@.top())
                && final(self)@ == old(self)@.popped(),
            old(self)@.sp == 0 ==> result == Err::<u16, ProcessorError>(
                ProcessorError::StackUnderflow,
            )
                && final(self)@ == old(self)@,
        no_unwind
    {
        proof {
            use_type_invariant(&*self);
        }
        if self.sp == 0 {
            return Err(ProcessorError::StackUnderflow);
        }
        self.pc = self.stack[self.sp as usize];
        self.sp = self.sp - 1;
        Ok(self.pc)
    }

    /// Pushes the program counter.
    pub fn push_pc_stack(&mut self) -> (result: Result<(), ProcessorError>)
        ensures
            final(self)@.wf(),
            old(self)@.sp < 15 ==> result.is_ok() && final(self)@ == old(self)@.pushed(
                old(self)@.pc,
            ),
            old(self)@.sp == 15 ==> result == Err::<(), ProcessorError>(
                ProcessorError::StackOverflow,
            )
                && final(self)@ == old(self)@,
        no_unwind
    {
        proof {
            use_type_invariant(&*self);
        }
        let pc = self.pc;
        self.push_stack(pc)
    }

    /// Pushes `addr`: moves the stack pointer up and stores `addr` in the
    /// slot it then names. With the stack pointer at the last slot nothing
    /// changes and the result is `StackOverflow`.
    pub fn push_stack(&mut self, addr: u16) -> (result: Result<(), ProcessorError>)
        ensures
            final(self)@.wf(),
            old(self)@.sp < 15 ==> result.is_ok() && final(self)@ == old(self)@.pushed(addr),
            old(self)@.sp == 15 ==> result == Err::<(), ProcessorError>(
                ProcessorError::StackOverflow,
            )
                && final(self)@ == old(self)@,
        no_unwind
    {
        proof {
            use_type_invariant(&*self);
        }
        if self.sp >= 15 {
            return Err(ProcessorError::StackOverflow);
        }
        self.sp = self.sp + 1;
        self.stack[self.sp as usize] = addr;
        Ok(())
    }

    /// A copy of the register file as it is now.
    pub fn snapshot(&self) -> (copy: RegisterSnapshot)
        ensures
            copy@ == self@,
    {
        proof {
            use_type_invariant(self);
        }
        Self {
            pc: self.pc,
            sp: self.sp,
            stack: self.stack,
            v: self.v,
            i: self.i,
            delay_timer: self.delay_timer,
            sound_timer: self.sound_timer,
        }
    }

    /// A listing of the register file for diagnostics.
    pub fn dump(&self) -> (text: String)
        ensures
            text@ == dump_text(self@),
    {
        let mut text = String::new();
        text.append("PC  ");
        push_prefixed_hex(&mut text, self.pc, 0);
        text.append("\n");
        text.append("SP  ");
        push_prefixed_hex(&mut text, self.sp as u16, 0);
        text.append("\n");
        text.append("stack:\n");
        let ghost head = text@;
        let mut count: usize = 0;
        while count < 16
            invariant
                count <= 16,
                text@ == head + stack_lines(self@, count as nat),
            decreases 16 - count,
        {
            self.push_stack_line(&mut text, 15 - count);
            count = count + 1;
        }
        text.append("\n");
        text.append("registers:\n");
        let ghost head = text@;
        let mut row: usize = 0;
        while row < 8
            invariant
                row <= 8,
                text@ == head + register_lines(self@, row as nat),
            decreases 8 - row,
        {
            self.push_register_line(&mut text, row);
            row = row + 1;
        }
        text.append("I   ");
        push_prefixed_hex(&mut text, self.i, 0);
        text.append("\n");
        text.append("DT  ");
        push_prefixed_hex(&mut text, self.delay_timer as u16, 0);
        text.append("\n");
        text.append("ST  ");
        push_prefixed_hex(&mut text, self.sound_timer as u16, 0);
        text.append("\n");
        text
    }

    /// Appends the line of the stack listing for `slot`.
    fn push_stack_line(&self, text: &mut String, slot: usize)
        requires
            slot < 16,
        ensures
            final(text)@ == old(text)@ + stack_line(self@, slot as int),
    {
        text.append("  ");
        text.push(if self.sp as usize == slot { '>' } else { ' ' });
        text.append(" 0x");
        push_hex(text, self.stack[slot], 4);
        text.append("\n");
    }

    /// Appends the line of the register listing for pair `row`.
    fn push_register_line(&self, text: &mut String, row: usize)
        requires
            row < 8,
        ensures
            final(text)@ == old(text)@ + register_line(self@, row as int),
    {
        text.push('V');
        text.push(hex_digit_of((2 * row) as u8));
        text.append("  ");
        push_prefixed_hex(text, self.v[2 * row] as u16, 8);
        text.push('V');
        text.push(hex_digit_of((2 * row + 1) as u8));
        text.append("  ");
        push_prefixed_hex(text, self.v[2 * row + 1] as u16, 0);
        text.append("\n");
    }

    /// Advances the 60 Hz clock by one tick: each timer that is not yet
    /// zero counts down by one.
    pub fn tick_timers(&mut self)
        ensures
            final(self)@ == old(self)@.ticked(),
            final(self)@.wf(),
        no_unwind
    {
        proof {
            use_type_invariant(&*self);
        }
        if self.delay_timer > 0 {
            self.delay_timer = self.delay_timer - 1;
        }
        if self.sound_timer > 0 {
            self.sound_timer = self.sound_timer - 1;
        }
    }

    /// The program counter.
    pub fn pc(&self) -> (pc: u16)
        ensures
            pc == self@.pc,
    {
        self.pc
    }

    /// The stack pointer.
    pub fn sp(&self) -> (sp: u8)
        ensures
            sp == self@.sp,
            sp <= 15,
    {
        proof {
            use_type_invariant(self);
        }
        self.sp
    }

    /// The index register.
    pub fn i(&self) -> (i: u16)
        ensures
            i == self@.i,
    {
        self.i
    }

    /// The delay timer.
    pub fn delay_timer(&self) -> (timer: u8)
        ensures
            timer == self@.delay_timer,
    {
        self.delay_timer
    }

    /// The sound timer.
    pub fn sound_timer(&self) -> (timer: u8)
        ensures
            timer == self@.sound_timer,
    {
        self.sound_timer
    }

    /// Moves the program counter to `pc`.
    pub(crate) fn set_pc(&mut self, pc: u16)
        ensures
            final(self)@ == old(self)@.with_pc(pc),
            final(self)@.wf(),
        no_unwind
    {
        proof {
            use_type_invariant(&*self);
        }
        self.pc = pc;
    }

    /// Moves the program counter `by` bytes on, wrapping at sixteen bits.
    pub(crate) fn advance(&mut self, by: u16)
        ensures
            final(self)@ == old(self)@.advanced(by as int),
            final(self)@.wf(),
        no_unwind
    {
        proof {
            use_type_invariant(&*self);
        }
        self.pc = if by > u16::MAX - self.pc {
            by - (u16::MAX - self.pc) - 1
        } else {
            self.pc + by
        };
    }

    /// Sets the index register to `i`.
    pub(crate) fn set_i(&mut self, i: u16)
        ensures
            final(self)@ == old(self)@.with_i(i),
            final(self)@.wf(),
        no_unwind
    {
        proof {
            use_type_invariant(&*self);
        }
        self.i = i;
    }

    /// Sets the delay timer to `timer`.
    pub(crate) fn set_delay_timer(&mut self, timer: u8)
        ensures
            final(self)@ == (RegistersView { delay_timer: timer, ..old(self)@ }),
            final(self)@.wf(),
        no_unwind
    {
        proof {
            use_type_invariant(&*self);
        }
        self.delay_timer = timer;
    }

    /// Sets the sound timer to `timer`.
    pub(crate) fn set_sound_timer(&mut self, timer: u8)
        ensures
            final(self)@ == (RegistersView { sound_timer: timer, ..old(self)@ }),
            final(self)@.wf(),
        no_unwind
    {
        proof {
            use_type_invariant(&*self);
        }
        self.sound_timer = timer;
    }
}

} // verus!
