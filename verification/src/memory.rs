//! The machine's 4 KiB of byte-addressable memory.

use crate::text::{hex, push_hex};
use vstd::prelude::*;
use vstd::slice::slice_subrange;

verus! {

/// Number of addressable bytes.
pub const MEMORY_SIZE: usize = 4096;

/// Why a memory access was refused.
#[derive(Clone, Copy, Debug, PartialEq, Eq, Structural)]
pub enum MemoryError {
    /// The access is not confined to the addresses `0x000..=0xFFF`.
    AddressOutOfRange,
}

/// Whether the `len` bytes from `addr` on all lie in memory.
pub open spec fn in_range(addr: int, len: int) -> bool {
    0 <= addr && 0 <= len && addr + len <= 4096
}

/// The big-endian 16-bit value of the two bytes at `addr` and `addr + 1`.
pub open spec fn word_at(mem: Seq<u8>, addr: int) -> u16 {
    (mem[addr] as int * 0x100 + mem[addr + 1] as int) as u16
}

/// `mem` with the bytes from `addr` on replaced by `bytes`.
pub open spec fn overlaid(mem: Seq<u8>, addr: int, bytes: Seq<u8>) -> Seq<u8> {
    Seq::new(
        mem.len(),
        |a: int|
            if addr <= a < addr + bytes.len() {
                bytes[a - addr]
            } else {
                mem[a]
            },
    )
}

/// A byte written to an address of memory is the byte read back from
/// it, and every other address keeps its byte.
pub proof fn lemma_write_then_read(mem: Seq<u8>, addr: u16, val: u8)
    requires
        mem.len() == 4096,
        addr < 4096,
    ensures
        mem.update(addr as int, val).len() == 4096,
        mem.update(addr as int, val)[addr as int] == val,
        forall|other: int|
            0 <= other < 4096 && other != addr ==> mem.update(addr as int, val)[other]
                == mem[other],
{
}

/// How a byte shows in the text column of a dump: a printable ASCII
/// character as itself, any other byte as a dot.
pub open spec fn shown(byte: u8) -> char {
    if 0x20 <= byte <= 0x7E {
        byte as char
    } else {
        '.'
    }
}

/// The bytes in hexadecimal, two digits each, with a space between one
/// byte and the next.
pub open spec fn hex_column(bytes: Seq<u8>) -> Seq<char>
    decreases bytes.len(),
{
    if bytes.len() == 0 {
        Seq::empty()
    } else if bytes.len() == 1 {
        hex(bytes[0] as int, 2)
    } else {
        hex_column(bytes.drop_last()) + " "@ + hex(bytes.last() as int, 2)
    }
}

/// The bytes as text, one character each.
pub open spec fn text_column(bytes: Seq<u8>) -> Seq<char> {
    Seq::new(bytes.len(), |k: int| shown(bytes[k]))
}

/// Row `row` of a dump of `mem`: the address of its first byte in four
/// digits, its sixteen bytes in hexadecimal, and the same bytes as text.
pub open spec fn dump_row(mem: Seq<u8>, row: int) -> Seq<char> {
    hex(16 * row, 4) + ":  "@ + hex_column(mem.subrange(16 * row, 16 * row + 16)) + " "@
        + text_column(mem.subrange(16 * row, 16 * row + 16)) + "\n"@
}

/// The first `count` rows of a dump of `mem`.
pub open spec fn dump_rows(mem: Seq<u8>, count: nat) -> Seq<char>
    decreases count,
{
    if count == 0 {
        Seq::empty()
    } else {
        dump_rows(mem, (count - 1) as nat) + dump_row(mem, count - 1)
    }
}

/// The text of a dump of `mem`: a line with its length, then its 256 rows
/// of sixteen bytes.
pub open spec fn dump_text(mem: Seq<u8>) -> Seq<char> {
    "Length: 4096 (0x1000) bytes\n"@ + dump_rows(mem, 256)
}

/// Flat byte-addressable store.
///
/// Memory map:
/// `0x000..0x200` interpreter area, of which `0x050..0x0A0` holds the 4x5 font glyphs;
/// `0x200..0x1000` program and working data.
#[derive(Debug, PartialEq, Eq)]
pub struct Memory {
    /// The raw bytes.
    data: [u8; 4096],
}

/// A memory that was copied from a machine, for diagnostics.
pub type MemorySnapshot = Memory;

impl View for Memory {
    type V = Seq<u8>;

    closed spec fn view(&self) -> Seq<u8> {
        self.data@
    }
}

impl Memory {
    /// Holds of every memory that exists.
    #[verifier::type_invariant]
    pub open spec fn inv(self) -> bool {
        self@.len() == 4096
    }

    /// A memory of 4096 zero bytes.
    pub fn new() -> (memory: Self)
        ensures
            memory@ == Seq::new(4096, |a: int| 0u8),
    {
        Self { data: [0; 4096] }
    }

    /// The byte at `addr`, or `AddressOutOfRange` if `addr` is no address.
    pub fn read(&self, addr: u16) -> (result: Result<u8, MemoryError>)
        ensures
            self@.len() == 4096,
            addr < 4096 ==> result == Ok::<u8, MemoryError>(self@[addr as int]),
            addr >= 4096 ==> result == Err::<u8, MemoryError>(MemoryError::AddressOutOfRange),
    {
        if (addr as usize) < MEMORY_SIZE {
            Ok(self.data[addr as usize])
        } else {
            Err(MemoryError::AddressOutOfRange)
        }
    }

    /// The big-endian word at `addr` and `addr + 1`, or `AddressOutOfRange`
    /// if one of the two is no address.
    pub fn read_16(&self, addr: u16) -> (result: Result<u16, MemoryError>)
        ensures
            self@.len() == 4096,
            in_range(addr as int, 2) ==> result == Ok::<u16, MemoryError>(
                word_at(self@, addr as int),
            ),
            !in_range(addr as int, 2) ==> result == Err::<u16, MemoryError>(
                MemoryError::AddressOutOfRange,
            ),
    {
        if (addr as usize) + 1 < MEMORY_SIZE {
            let high = self.data[addr as usize] as u16;
            let low = self.data[addr as usize + 1] as u16;
            Ok(high * 0x100 + low)
        } else {
            Err(MemoryError::AddressOutOfRange)
        }
    }

    /// The `len` bytes from `addr` on, or `AddressOutOfRange` if they do
    /// not all lie in memory.
    pub fn read_many(&self, addr: u16, len: u16) -> (result: Result<&[u8], MemoryError>)
        ensures
            self@.len() == 4096,
            in_range(addr as int, len as int) ==> result.is_ok() && result.unwrap()@
                == self@.subrange(addr as int, addr + len),
            !in_range(addr as int, len as int) ==> result.is_err() && result.unwrap_err()
                == MemoryError::AddressOutOfRange,
    {
        if addr as usize + len as usize <= MEMORY_SIZE {
            Ok(slice_subrange(self.data.as_slice(), addr as usize, addr as usize + len as usize))
        } else {
            Err(MemoryError::AddressOutOfRange)
        }
    }

    /// The bytes at the addresses `from..to`, or `AddressOutOfRange` unless
    /// `from <= to <= 4096`.
    pub fn read_range(&self, from: u16, to: u16) -> (result: Result<&[u8], MemoryError>)
        ensures
            self@.len() == 4096,
            from <= to <= 4096 ==> result.is_ok() && result.unwrap()@ == self@.subrange(
                from as int,
                to as int,
            ),
            !(from <= to <= 4096) ==> result.is_err() && result.unwrap_err()
                == MemoryError::AddressOutOfRange,
    {
        if from <= to && to as usize <= MEMORY_SIZE {
            Ok(slice_subrange(self.data.as_slice(), from as usize, to as usize))
        } else {
            Err(MemoryError::AddressOutOfRange)
        }
    }

    /// Stores `val` at `addr`. If `addr` is no address, nothing changes
    /// and the result is `AddressOutOfRange`.
    pub fn write(&mut self, addr: u16, val: u8) -> (result: Result<(), MemoryError>)
        ensures
            final(self)@.len() == 4096,
            addr < 4096 ==> result.is_ok() && final(self)@ == old(self)@.update(addr as int, val),
            addr >= 4096 ==> result == Err::<(), MemoryError>(MemoryError::AddressOutOfRange)
                && final(self)@ == old(self)@,
    {
        if (addr as usize) < MEMORY_SIZE {
            self.data[addr as usize] = val;
            Ok(())
        } else {
            Err(MemoryError::AddressOutOfRange)
        }
    }

    /// Stores the bytes of `val` at `addr`, `addr + 1`, and so on. If they
    /// do not all fit in memory, nothing changes and the result is
    /// `AddressOutOfRange`.
    pub fn copy(&mut self, addr: u16, val: &[u8]) -> (result: Result<(), MemoryError>)
        ensures
            final(self)@.len() == 4096,
            in_range(addr as int, val@.len() as int) ==> result.is_ok() && final(self)@
                == overlaid(old(self)@, addr as int, val@),
            !in_range(addr as int, val@.len() as int) ==> result == Err::<(), MemoryError>(
                MemoryError::AddressOutOfRange,
            ) && final(self)@ == old(self)@,
    {
        let len = val.len();
        if len > MEMORY_SIZE || addr as usize > MEMORY_SIZE - len {
            return Err(MemoryError::AddressOutOfRange);
        }
        let start = addr as usize;
        let mut k: usize = 0;
        while k < len
            invariant
                k <= len,
                len == val@.len(),
                start == addr,
                start + len <= 4096,
                self.data@ == overlaid(old(self)@, addr as int, val@.subrange(0, k as int)),
            decreases len - k,
        {
            self.data[start + k] = val[k];
            k = k + 1;
        }
        Ok(())
    }

    /// A copy of the memory as it is now.
    pub fn snapshot(&self) -> (copy: MemorySnapshot)
        ensures
            copy@ == self@,
    {
        Self { data: self.data }
    }

    /// A listing of the whole memory for diagnostics.
    pub fn dump(&self) -> (text: String)
        ensures
            text@ == dump_text(self@),
    {
        let mut text = String::new();
        text.append("Length: 4096 (0x1000) bytes\n");
        let ghost head = text@;
        let mut row: usize = 0;
        while row < 256
            invariant
                row <= 256,
                text@ == head + dump_rows(self@, row as nat),
            decreases 256 - row,
        {
            self.push_row(&mut text, row);
            row = row + 1;
        }
        text
    }

    /// Appends row `row` of the dump.
    fn push_row(&self, text: &mut String, row: usize)
        requires
            row < 256,
        ensures
            final(text)@ == old(text)@ + dump_row(self@, row as int),
    {
        let base: usize = 16 * row;
        let ghost bytes = self@.subrange(base as int, base + 16);
        push_hex(text, base as u16, 4);
        text.append(":  ");
        let ghost head = text@;
        let mut k: usize = 0;
        while k < 16
            invariant
                k <= 16,
                base + 16 <= 4096,
                bytes == self@.subrange(base as int, base + 16),
                text@ == head + hex_column(bytes.subrange(0, k as int)),
            decreases 16 - k,
        {
            if k > 0 {
                text.append(" ");
            }
            push_hex(text, self.data[base + k] as u16, 2);
            proof {
                assert(bytes.subrange(0, k + 1).drop_last() =~= bytes.subrange(0, k as int));
            }
            k = k + 1;
        }
        assert(bytes.subrange(0, 16) =~= bytes);
        text.append(" ");
        let ghost head = text@;
        let mut k: usize = 0;
        while k < 16
            invariant
                k <= 16,
                base + 16 <= 4096,
                bytes == self@.subrange(base as int, base + 16),
                text@ == head + text_column(bytes.subrange(0, k as int)),
            decreases 16 - k,
        {
            let byte = self.data[base + k];
            text.push(if 0x20 <= byte && byte <= 0x7E { byte as char } else { '.' });
            k = k + 1;
        }
        text.append("\n");
    }
}

} // verus!
