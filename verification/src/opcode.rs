//! Instruction shapes and the decoder that maps a 16-bit word to one of them.

use vstd::prelude::*;

verus! {

/// A decoded instruction.
///
/// An instruction word is four nibbles. In the patterns below a hex digit
/// stands for itself, `x` and `y` name registers, `kk` is an 8-bit immediate,
/// `nnn` a 12-bit address and `n` a 4-bit length.
#[allow(inconsistent_fields)]
#[derive(Clone, Copy, Debug, PartialEq, Eq, Structural)]
pub enum Opcode {
    /// `0nnn` (SYS addr): call the machine-code routine at `nnn`.
    MachineRoutine { n: u16 },
    /// `00E0` (CLS): clear the screen.
    ClearScreen,
    /// `00EE` (RET): return from a subroutine.
    Return,
    /// `1nnn` (JP addr): jump to `nnn`.
    Jump { n: u16 },
    /// `2nnn` (CALL addr): call the subroutine at `nnn`.
    Call { n: u16 },
    /// `3xkk` (SE Vx, byte): skip the next instruction if `Vx == kk`.
    SkipEqualImmediate { x: u8, k: u8 },
    /// `4xkk` (SNE Vx, byte): skip the next instruction if `Vx != kk`.
    SkipNotEqualImmediate { x: u8, k: u8 },
    /// `5xy0` (SE Vx, Vy): skip the next instruction if `Vx == Vy`.
    SkipEqual { x: u8, y: u8 },
    /// `6xkk` (LD Vx, byte): set `Vx = kk`.
    LoadImmediate { x: u8, k: u8 },
    /// `7xkk` (ADD Vx, byte): set `Vx = Vx + kk`, without touching the flag.
    AddImmediate { x: u8, k: u8 },
    /// `8xy0` (LD Vx, Vy): set `Vx = Vy`.
    Load { x: u8, y: u8 },
    /// `8xy1` (OR Vx, Vy): set `Vx = Vx | Vy`.
    Or { x: u8, y: u8 },
    /// `8xy2` (AND Vx, Vy): set `Vx = Vx & Vy`.
    And { x: u8, y: u8 },
    /// `8xy3` (XOR Vx, Vy): set `Vx = Vx ^ Vy`.
    Xor { x: u8, y: u8 },
    /// `8xy4` (ADD Vx, Vy): set `Vx = Vx + Vy`, `VF` = carry.
    Add { x: u8, y: u8 },
    /// `8xy5` (SUB Vx, Vy): set `Vx = Vx - Vy`, `VF` = no borrow.
    Subtract { x: u8, y: u8 },
    /// `8xy6` (SHR Vx): set `Vx = Vx >> 1`, `VF` = the bit shifted out.
    ShiftRight { x: u8, y: u8 },
    /// `8xy7` (SUBN Vx, Vy): set `Vx = Vy - Vx`, `VF` = no borrow.
    SubtractFrom { x: u8, y: u8 },
    /// `8xyE` (SHL Vx): set `Vx = Vx << 1`, `VF` = the bit shifted out.
    ShiftLeft { x: u8, y: u8 },
    /// `9xy0` (SNE Vx, Vy): skip the next instruction if `Vx != Vy`.
    SkipNotEqual { x: u8, y: u8 },
    /// `Annn` (LD I, addr): set `I = nnn`.
    LoadIndex { n: u16 },
    /// `Bnnn` (JP V0, addr): jump to `nnn + V0`.
    JumpOffset { n: u16 },
    /// `Cxkk` (RND Vx, byte): set `Vx` = random byte `& kk`.
    Random { x: u8, k: u8 },
    /// `Dxyn` (DRW Vx, Vy, n): draw the `n`-byte sprite at `I` at `(Vx, Vy)`, `VF` = collision.
    Draw { x: u8, y: u8, n: u8 },
    /// `Ex9E` (SKP Vx): skip the next instruction if key `Vx` is down.
    SkipKeyDown { x: u8 },
    /// `ExA1` (SKNP Vx): skip the next instruction if key `Vx` is not down.
    SkipKeyUp { x: u8 },
    /// `Fx07` (LD Vx, DT): set `Vx` = delay timer.
    ReadDelayTimer { x: u8 },
    /// `Fx0A` (LD Vx, K): wait for a key press and store the key in `Vx`.
    AwaitKey { x: u8 },
    /// `Fx15` (LD DT, Vx): set delay timer = `Vx`.
    SetDelayTimer { x: u8 },
    /// `Fx18` (LD ST, Vx): set sound timer = `Vx`.
    SetSoundTimer { x: u8 },
    /// `Fx1E` (ADD I, Vx): set `I = I + Vx`.
    AddIndex { x: u8 },
    /// `Fx29` (LD F, Vx): set `I` to the glyph of digit `Vx`.
    LoadGlyph { x: u8 },
    /// `Fx33` (LD B, Vx): store the decimal digits of `Vx` at `I`, `I+1`, `I+2`.
    StoreDecimal { x: u8 },
    /// `Fx55` (LD [I], Vx): store `V0..=Vx` at `I..`.
    StoreRegisters { x: u8 },
    /// `Fx65` (LD Vx, [I]): load `V0..=Vx` from `I..`.
    LoadRegisters { x: u8 },
    /// A word that is no instruction; `code` is the word.
    Invalid { code: u16 },
}

/// The most significant nibble of `word`: the instruction's primary group.
pub open spec fn group_of(word: u16) -> int {
    word as int / 0x1000
}

/// The second nibble of `word`: the register operand `x`.
pub open spec fn x_of(word: u16) -> u8 {
    ((word as int / 0x100) % 0x10) as u8
}

/// The third nibble of `word`: the register operand `y`.
pub open spec fn y_of(word: u16) -> u8 {
    ((word as int / 0x10) % 0x10) as u8
}

/// The least significant nibble of `word`.
pub open spec fn n_of(word: u16) -> u8 {
    (word as int % 0x10) as u8
}

/// The low byte of `word`: the immediate operand `kk`.
pub open spec fn kk_of(word: u16) -> u8 {
    (word as int % 0x100) as u8
}

/// The low twelve bits of `word`: the address operand `nnn`.
pub open spec fn nnn_of(word: u16) -> u16 {
    (word as int % 0x1000) as u16
}

/// The instruction that `word` encodes: the two whole-word instructions
/// first, then by group, and within groups `5`, `8`, `9` by the last nibble
/// and within groups `E`, `F` by the low byte.
pub open spec fn decode(word: u16) -> Opcode {
    let x = x_of(word);
    let y = y_of(word);
    let k = kk_of(word);
    let n = nnn_of(word);
    let invalid = Opcode::Invalid { code: word };
    if word == 0x00E0 {
        Opcode::ClearScreen
    } else if word == 0x00EE {
        Opcode::Return
    } else if group_of(word) == 0x0 {
        Opcode::MachineRoutine { n }
    } else if group_of(word) == 0x1 {
        Opcode::Jump { n }
    } else if group_of(word) == 0x2 {
        Opcode::Call { n }
    } else if group_of(word) == 0x3 {
        Opcode::SkipEqualImmediate { x, k }
    } else if group_of(word) == 0x4 {
        Opcode::SkipNotEqualImmediate { x, k }
    } else if group_of(word) == 0x5 {
        if n_of(word) == 0x0 {
            Opcode::SkipEqual { x, y }
        } else {
            invalid
        }
    } else if group_of(word) == 0x6 {
        Opcode::LoadImmediate { x, k }
    } else if group_of(word) == 0x7 {
        Opcode::AddImmediate { x, k }
    } else if group_of(word) == 0x8 {
        if n_of(word) == 0x0 {
            Opcode::Load { x, y }
        } else if n_of(word) == 0x1 {
            Opcode::Or { x, y }
        } else if n_of(word) == 0x2 {
            Opcode::And { x, y }
        } else if n_of(word) == 0x3 {
            Opcode::Xor { x, y }
        } else if n_of(word) == 0x4 {
            Opcode::Add { x, y }
        } else if n_of(word) == 0x5 {
            Opcode::Subtract { x, y }
        } else if n_of(word) == 0x6 {
            Opcode::ShiftRight { x, y }
        } else if n_of(word) == 0x7 {
            Opcode::SubtractFrom { x, y }
        } else if n_of(word) == 0xE {
            Opcode::ShiftLeft { x, y }
        } else {
            invalid
        }
    } else if group_of(word) == 0x9 {
        if n_of(word) == 0x0 {
            Opcode::SkipNotEqual { x, y }
        } else {
            invalid
        }
    } else if group_of(word) == 0xA {
        Opcode::LoadIndex { n }
    } else if group_of(word) == 0xB {
        Opcode::JumpOffset { n }
    } else if group_of(word) == 0xC {
        Opcode::Random { x, k }
    } else if group_of(word) == 0xD {
        Opcode::Draw { x, y, n: n_of(word) }
    } else if group_of(word) == 0xE {
        if k == 0x9E {
            Opcode::SkipKeyDown { x }
        } else if k == 0xA1 {
            Opcode::SkipKeyUp { x }
        } else {
            invalid
        }
    } else {
        if k == 0x07 {
            Opcode::ReadDelayTimer { x }
        } else if k == 0x0A {
            Opcode::AwaitKey { x }
        } else if k == 0x15 {
            Opcode::SetDelayTimer { x }
        } else if k == 0x18 {
            Opcode::SetSoundTimer { x }
        } else if k == 0x1E {
            Opcode::AddIndex { x }
        } else if k == 0x29 {
            Opcode::LoadGlyph { x }
        } else if k == 0x33 {
            Opcode::StoreDecimal { x }
        } else if k == 0x55 {
            Opcode::StoreRegisters { x }
        } else if k == 0x65 {
            Opcode::LoadRegisters { x }
        } else {
            invalid
        }
    }
}

/// Masks and shifts pick out the same fields as division and remainder.
proof fn lemma_fields(word: u16)
    ensures
        word & 0xF000 == group_of(word) * 0x1000,
        (word & 0x0F00) >> 8 == x_of(word),
        (word & 0x00F0) >> 4 == y_of(word),
        word & 0x000F == n_of(word),
        word & 0x00FF == kk_of(word),
        word & 0x0FFF == nnn_of(word),
{
    assert(word & 0xF000 == (word / 0x1000) * 0x1000) by (bit_vector);
    assert((word & 0x0F00) >> 8 == (word / 0x100) % 0x10) by (bit_vector);
    assert((word & 0x00F0) >> 4 == (word / 0x10) % 0x10) by (bit_vector);
    assert(word & 0x000F == word % 0x10) by (bit_vector);
    assert(word & 0x00FF == word % 0x100) by (bit_vector);
    assert(word & 0x0FFF == word % 0x1000) by (bit_vector);
}

/// A word is the sum of its four nibbles, each at its place.
proof fn lemma_nibbles(word: u16)
    ensures
        0 <= group_of(word) < 16,
        x_of(word) < 16,
        y_of(word) < 16,
        n_of(word) < 16,
        word == group_of(word) * 0x1000 + x_of(word) * 0x100 + y_of(word) * 0x10 + n_of(word),
        kk_of(word) == y_of(word) * 0x10 + n_of(word),
        nnn_of(word) == x_of(word) * 0x100 + y_of(word) * 0x10 + n_of(word),
{
    assert(word == (word / 0x1000) * 0x1000 + ((word / 0x100) % 0x10) * 0x100 + ((word / 0x10)
        % 0x10) * 0x10 + word % 0x10) by (bit_vector);
    assert(word % 0x100 == ((word / 0x10) % 0x10) * 0x10 + word % 0x10) by (bit_vector);
    assert(word % 0x1000 == ((word / 0x100) % 0x10) * 0x100 + ((word / 0x10) % 0x10) * 0x10 + word
        % 0x10) by (bit_vector);
}

/// Four nibbles put at their places make a word with these nibbles.
proof fn lemma_word_of_nibbles(g: int, x: int, y: int, n: int)
    requires
        0 <= g < 16,
        0 <= x < 16,
        0 <= y < 16,
        0 <= n < 16,
    ensures
        ({
            let word = g * 0x1000 + x * 0x100 + y * 0x10 + n;
            &&& 0 <= word <= u16::MAX
            &&& group_of(word as u16) == g
            &&& x_of(word as u16) == x
            &&& y_of(word as u16) == y
            &&& n_of(word as u16) == n
            &&& kk_of(word as u16) == y * 0x10 + n
            &&& nnn_of(word as u16) == x * 0x100 + y * 0x10 + n
        }),
{
    let word = (g * 0x1000 + x * 0x100 + y * 0x10 + n) as u16;
    lemma_nibbles(word);
    assert(group_of(word) == g && x_of(word) == x && y_of(word) == y && n_of(word) == n)
        by (nonlinear_arith)
        requires
            0 <= g < 16,
            0 <= x < 16,
            0 <= y < 16,
            0 <= n < 16,
            0 <= group_of(word) < 16,
            x_of(word) < 16,
            y_of(word) < 16,
            n_of(word) < 16,
            g * 0x1000 + x * 0x100 + y * 0x10 + n == group_of(word) * 0x1000 + x_of(word) * 0x100
                + y_of(word) * 0x10 + n_of(word),
    ;
}

/// The nibbles of a word of group `g` with the address `n`.
spec fn with_address(g: int, n: u16) -> (int, int, int, int) {
    (g, x_of(n) as int, y_of(n) as int, n_of(n) as int)
}

/// The nibbles of a word of group `g` with the register `x` and the byte `k`.
spec fn with_byte(g: int, x: u8, k: u8) -> (int, int, int, int) {
    (g, x as int, y_of(k as u16) as int, n_of(k as u16) as int)
}

/// Decoding loses nothing: every word is the word that its instruction
/// stands for, and the operands of the instruction fit their fields.
pub proof fn lemma_decode_then_encode(word: u16)
    ensures
        decode(word).wf(),
        decode(word).encode() == word,
{
    lemma_nibbles(word);
}

/// Every instruction with operands that fit their fields is what its word
/// decodes to. The one exception is the call of a machine-code routine at
/// `0x0E0` or `0x0EE`: these two words clear the screen and return.
pub proof fn lemma_encode_then_decode(op: Opcode)
    requires
        op.wf(),
        !(op is Invalid),
        op != (Opcode::MachineRoutine { n: 0x0E0 }),
        op != (Opcode::MachineRoutine { n: 0x0EE }),
    ensures
        0 <= op.encode() <= u16::MAX,
        decode(op.encode() as u16) == op,
{
    let (g, x, y, n): (int, int, int, int) = match op {
        Opcode::MachineRoutine { n } => with_address(0x0, n),
        Opcode::ClearScreen => (0x0, 0x0, 0xE, 0x0),
        Opcode::Return => (0x0, 0x0, 0xE, 0xE),
        Opcode::Jump { n } => with_address(0x1, n),
        Opcode::Call { n } => with_address(0x2, n),
        Opcode::SkipEqualImmediate { x, k } => with_byte(0x3, x, k),
        Opcode::SkipNotEqualImmediate { x, k } => with_byte(0x4, x, k),
        Opcode::SkipEqual { x, y } => (0x5, x as int, y as int, 0x0),
        Opcode::LoadImmediate { x, k } => with_byte(0x6, x, k),
        Opcode::AddImmediate { x, k } => with_byte(0x7, x, k),
        Opcode::Load { x, y } => (0x8, x as int, y as int, 0x0),
        Opcode::Or { x, y } => (0x8, x as int, y as int, 0x1),
        Opcode::And { x, y } => (0x8, x as int, y as int, 0x2),
        Opcode::Xor { x, y } => (0x8, x as int, y as int, 0x3),
        Opcode::Add { x, y } => (0x8, x as int, y as int, 0x4),
        Opcode::Subtract { x, y } => (0x8, x as int, y as int, 0x5),
        Opcode::ShiftRight { x, y } => (0x8, x as int, y as int, 0x6),
        Opcode::SubtractFrom { x, y } => (0x8, x as int, y as int, 0x7),
        Opcode::ShiftLeft { x, y } => (0x8, x as int, y as int, 0xE),
        Opcode::SkipNotEqual { x, y } => (0x9, x as int, y as int, 0x0),
        Opcode::LoadIndex { n } => with_address(0xA, n),
        Opcode::JumpOffset { n } => with_address(0xB, n),
        Opcode::Random { x, k } => with_byte(0xC, x, k),
        Opcode::Draw { x, y, n } => (0xD, x as int, y as int, n as int),
        Opcode::SkipKeyDown { x } => (0xE, x as int, 0x9, 0xE),
        Opcode::SkipKeyUp { x } => (0xE, x as int, 0xA, 0x1),
        Opcode::ReadDelayTimer { x } => (0xF, x as int, 0x0, 0x7),
        Opcode::AwaitKey { x } => (0xF, x as int, 0x0, 0xA),
        Opcode::SetDelayTimer { x } => (0xF, x as int, 0x1, 0x5),
        Opcode::SetSoundTimer { x } => (0xF, x as int, 0x1, 0x8),
        Opcode::AddIndex { x } => (0xF, x as int, 0x1, 0xE),
        Opcode::LoadGlyph { x } => (0xF, x as int, 0x2, 0x9),
        Opcode::StoreDecimal { x } => (0xF, x as int, 0x3, 0x3),
        Opcode::StoreRegisters { x } => (0xF, x as int, 0x5, 0x5),
        Opcode::LoadRegisters { x } => (0xF, x as int, 0x6, 0x5),
        Opcode::Invalid { code } => (0, 0, 0, 0),
    };
    match op {
        Opcode::MachineRoutine { n }
        | Opcode::Jump { n }
        | Opcode::Call { n }
        | Opcode::LoadIndex { n }
        | Opcode::JumpOffset { n } => {
            lemma_nibbles(n);
        },
        Opcode::SkipEqualImmediate { k, .. }
        | Opcode::SkipNotEqualImmediate { k, .. }
        | Opcode::LoadImmediate { k, .. }
        | Opcode::AddImmediate { k, .. }
        | Opcode::Random { k, .. } => {
            lemma_nibbles(k as u16);
        },
        _ => {},
    }
    lemma_word_of_nibbles(g, x, y, n);
    let word = op.encode() as u16;
}

impl Opcode {
    /// Whether every operand fits its field: register indices and sprite
    /// lengths in four bits, addresses in twelve.
    pub open spec fn wf(self) -> bool {
        match self {
            Opcode::MachineRoutine { n } => n < 0x1000,
            Opcode::ClearScreen => true,
            Opcode::Return => true,
            Opcode::Jump { n } => n < 0x1000,
            Opcode::Call { n } => n < 0x1000,
            Opcode::SkipEqualImmediate { x, k } => x < 16,
            Opcode::SkipNotEqualImmediate { x, k } => x < 16,
            Opcode::SkipEqual { x, y } => x < 16 && y < 16,
            Opcode::LoadImmediate { x, k } => x < 16,
            Opcode::AddImmediate { x, k } => x < 16,
            Opcode::Load { x, y } => x < 16 && y < 16,
            Opcode::Or { x, y } => x < 16 && y < 16,
            Opcode::And { x, y } => x < 16 && y < 16,
            Opcode::Xor { x, y } => x < 16 && y < 16,
            Opcode::Add { x, y } => x < 16 && y < 16,
            Opcode::Subtract { x, y } => x < 16 && y < 16,
            Opcode::ShiftRight { x, y } => x < 16 && y < 16,
            Opcode::SubtractFrom { x, y } => x < 16 && y < 16,
            Opcode::ShiftLeft { x, y } => x < 16 && y < 16,
            Opcode::SkipNotEqual { x, y } => x < 16 && y < 16,
            Opcode::LoadIndex { n } => n < 0x1000,
            Opcode::JumpOffset { n } => n < 0x1000,
            Opcode::Random { x, k } => x < 16,
            Opcode::Draw { x, y, n } => x < 16 && y < 16 && n < 16,
            Opcode::SkipKeyDown { x } => x < 16,
            Opcode::SkipKeyUp { x } => x < 16,
            Opcode::ReadDelayTimer { x } => x < 16,
            Opcode::AwaitKey { x } => x < 16,
            Opcode::SetDelayTimer { x } => x < 16,
            Opcode::SetSoundTimer { x } => x < 16,
            Opcode::AddIndex { x } => x < 16,
            Opcode::LoadGlyph { x } => x < 16,
            Opcode::StoreDecimal { x } => x < 16,
            Opcode::StoreRegisters { x } => x < 16,
            Opcode::LoadRegisters { x } => x < 16,
            Opcode::Invalid { code } => true,
        }
    }

    /// Whether every operand of `self` fits its field.
    pub fn is_well_formed(&self) -> (ok: bool)
        ensures
            ok == self.wf(),
    {
        match *self {
            Opcode::ClearScreen | Opcode::Return | Opcode::Invalid { .. } => true,
            Opcode::MachineRoutine { n }
            | Opcode::Jump { n }
            | Opcode::Call { n }
            | Opcode::LoadIndex { n }
            | Opcode::JumpOffset { n } => n < 0x1000,
            Opcode::SkipEqualImmediate { x, .. }
            | Opcode::SkipNotEqualImmediate { x, .. }
            | Opcode::LoadImmediate { x, .. }
            | Opcode::AddImmediate { x, .. }
            | Opcode::Random { x, .. }
            | Opcode::SkipKeyDown { x }
            | Opcode::SkipKeyUp { x }
            | Opcode::ReadDelayTimer { x }
            | Opcode::AwaitKey { x }
            | Opcode::SetDelayTimer { x }
            | Opcode::SetSoundTimer { x }
            | Opcode::AddIndex { x }
            | Opcode::LoadGlyph { x }
            | Opcode::StoreDecimal { x }
            | Opcode::StoreRegisters { x }
            | Opcode::LoadRegisters { x } => x < 16,
            Opcode::SkipEqual { x, y }
            | Opcode::Load { x, y }
            | Opcode::Or { x, y }
            | Opcode::And { x, y }
            | Opcode::Xor { x, y }
            | Opcode::Add { x, y }
            | Opcode::Subtract { x, y }
            | Opcode::ShiftRight { x, y }
            | Opcode::SubtractFrom { x, y }
            | Opcode::ShiftLeft { x, y }
            | Opcode::SkipNotEqual { x, y } => x < 16 && y < 16,
            Opcode::Draw { x, y, n } => x < 16 && y < 16 && n < 16,
        }
    }

    /// The word that stands for `self`: the pattern of its shape with the
    /// operands in their nibbles. `Invalid` stands for the word it carries.
    pub open spec fn encode(self) -> int {
        match self {
            Opcode::MachineRoutine { n } => 0x0000 + n,
            Opcode::ClearScreen => 0x00E0,
            Opcode::Return => 0x00EE,
            Opcode::Jump { n } => 0x1000 + n,
            Opcode::Call { n } => 0x2000 + n,
            Opcode::SkipEqualImmediate { x, k } => 0x3000 + x * 0x100 + k,
            Opcode::SkipNotEqualImmediate { x, k } => 0x4000 + x * 0x100 + k,
            Opcode::SkipEqual { x, y } => 0x5000 + x * 0x100 + y * 0x10,
            Opcode::LoadImmediate { x, k } => 0x6000 + x * 0x100 + k,
            Opcode::AddImmediate { x, k } => 0x7000 + x * 0x100 + k,
            Opcode::Load { x, y } => 0x8000 + x * 0x100 + y * 0x10,
            Opcode::Or { x, y } => 0x8001 + x * 0x100 + y * 0x10,
            Opcode::And { x, y } => 0x8002 + x * 0x100 + y * 0x10,
            Opcode::Xor { x, y } => 0x8003 + x * 0x100 + y * 0x10,
            Opcode::Add { x, y } => 0x8004 + x * 0x100 + y * 0x10,
            Opcode::Subtract { x, y } => 0x8005 + x * 0x100 + y * 0x10,
            Opcode::ShiftRight { x, y } => 0x8006 + x * 0x100 + y * 0x10,
            Opcode::SubtractFrom { x, y } => 0x8007 + x * 0x100 + y * 0x10,
            Opcode::ShiftLeft { x, y } => 0x800E + x * 0x100 + y * 0x10,
            Opcode::SkipNotEqual { x, y } => 0x9000 + x * 0x100 + y * 0x10,
            Opcode::LoadIndex { n } => 0xA000 + n,
            Opcode::JumpOffset { n } => 0xB000 + n,
            Opcode::Random { x, k } => 0xC000 + x * 0x100 + k,
            Opcode::Draw { x, y, n } => 0xD000 + x * 0x100 + y * 0x10 + n,
            Opcode::SkipKeyDown { x } => 0xE09E + x * 0x100,
            Opcode::SkipKeyUp { x } => 0xE0A1 + x * 0x100,
            Opcode::ReadDelayTimer { x } => 0xF007 + x * 0x100,
            Opcode::AwaitKey { x } => 0xF00A + x * 0x100,
            Opcode::SetDelayTimer { x } => 0xF015 + x * 0x100,
            Opcode::SetSoundTimer { x } => 0xF018 + x * 0x100,
            Opcode::AddIndex { x } => 0xF01E + x * 0x100,
            Opcode::LoadGlyph { x } => 0xF029 + x * 0x100,
            Opcode::StoreDecimal { x } => 0xF033 + x * 0x100,
            Opcode::StoreRegisters { x } => 0xF055 + x * 0x100,
            Opcode::LoadRegisters { x } => 0xF065 + x * 0x100,
            Opcode::Invalid { code } => code as int,
        }
    }

    /// Decodes an instruction word. Never fails: a word that is no
    /// instruction decodes to `Invalid` carrying the word.
    pub fn from(instruction: u16) -> (op: Opcode)
        ensures
            op == decode(instruction),
            op.wf(),
    {
        proof {
            lemma_fields(instruction);
        }
        let x = ((instruction & 0x0F00) >> 8) as u8;
        let y = ((instruction & 0x00F0) >> 4) as u8;
        let k = (instruction & 0x00FF) as u8;
        let n = instruction & 0x0FFF;
        match instruction {
            0x00E0 => Opcode::ClearScreen,
            0x00EE => Opcode::Return,
            _ => match instruction & 0xF000 {
                0x0000 => Opcode::MachineRoutine { n },
                0x1000 => Opcode::Jump { n },
                0x2000 => Opcode::Call { n },
                0x3000 => Opcode::SkipEqualImmediate { x, k },
                0x4000 => Opcode::SkipNotEqualImmediate { x, k },
                0x5000 => match instruction & 0x000F {
                    0x0000 => Opcode::SkipEqual { x, y },
                    _ => Opcode::Invalid { code: instruction },
                },
                0x6000 => Opcode::LoadImmediate { x, k },
                0x7000 => Opcode::AddImmediate { x, k },
                0x8000 => match instruction & 0x000F {
                    0x0000 => Opcode::Load { x, y },
                    0x0001 => Opcode::Or { x, y },
                    0x0002 => Opcode::And { x, y },
                    0x0003 => Opcode::Xor { x, y },
                    0x0004 => Opcode::Add { x, y },
                    0x0005 => Opcode::Subtract { x, y },
                    0x0006 => Opcode::ShiftRight { x, y },
                    0x0007 => Opcode::SubtractFrom { x, y },
                    0x000E => Opcode::ShiftLeft { x, y },
                    _ => Opcode::Invalid { code: instruction },
                },
                0x9000 => match instruction & 0x000F {
                    0x0000 => Opcode::SkipNotEqual { x, y },
                    _ => Opcode::Invalid { code: instruction },
                },
                0xA000 => Opcode::LoadIndex { n },
                0xB000 => Opcode::JumpOffset { n },
                0xC000 => Opcode::Random { x, k },
                0xD000 => Opcode::Draw { x, y, n: (instruction & 0x000F) as u8 },
                0xE000 => match instruction & 0x00FF {
                    0x009E => Opcode::SkipKeyDown { x },
                    0x00A1 => Opcode::SkipKeyUp { x },
                    _ => Opcode::Invalid { code: instruction },
                },
                0xF000 => match instruction & 0x00FF {
                    0x0007 => Opcode::ReadDelayTimer { x },
                    0x000A => Opcode::AwaitKey { x },
                    0x0015 => Opcode::SetDelayTimer { x },
                    0x0018 => Opcode::SetSoundTimer { x },
                    0x001E => Opcode::AddIndex { x },
                    0x0029 => Opcode::LoadGlyph { x },
                    0x0033 => Opcode::StoreDecimal { x },
                    0x0055 => Opcode::StoreRegisters { x },
                    0x0065 => Opcode::LoadRegisters { x },
                    _ => Opcode::Invalid { code: instruction },
                },
                _ => Opcode::Invalid { code: instruction },
            },
        }
    }
}

} // verus!
