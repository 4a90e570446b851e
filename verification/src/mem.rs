//! A flat, byte-addressable memory of 64 KiB, zero-initialized, with byte
//! and little-endian word access.  Its view is the sequence of all bytes.

use vstd::prelude::*;
use crate::errors::ErrorKind;

verus! {

/// The number of addressable bytes.  Valid addresses are `0 .. MAX_MEM`.
pub const MAX_MEM: usize = 65536;

/// The little-endian word stored at address `a`: the low byte at `a`, the
/// high byte at `a + 1`.
pub open spec fn word_at(m: Seq<u8>, a: int) -> u16 {
    (m[a] + 256 * m[a + 1]) as u16
}

/// The memory contents with the segment starting at `a` replaced by
/// `bytes`, everything else kept.
pub open spec fn with_bytes(m: Seq<u8>, a: int, bytes: Seq<u8>) -> Seq<u8> {
    Seq::new(
        m.len(),
        |i: int|
            if a <= i < a + bytes.len() {
                bytes[i - a]
            } else {
                m[i]
            },
    )
}

/// The flat memory array.
#[derive(Debug)]
pub struct Memory {
    data: Vec<u8>,
}

impl View for Memory {
    type V = Seq<u8>;

    closed spec fn view(&self) -> Seq<u8> {
        self.data@
    }
}

impl Memory {
    /// Well-formed: the memory holds exactly `MAX_MEM` bytes.  Established
    /// by the constructors and preserved by every operation.
    pub open spec fn wf(&self) -> bool {
        self@.len() == MAX_MEM
    }

    /// A fresh memory of `MAX_MEM` bytes, all zero.
    pub fn new() -> (r: Memory)
        ensures
            r.wf(),
            forall|i: int| 0 <= i < MAX_MEM ==> r@[i] == 0u8,
    {
        let mut data: Vec<u8> = Vec::new();
        let mut i: usize = 0;
        while i < MAX_MEM
            invariant
                i <= MAX_MEM,
                data@.len() == i,
                forall|j: int| 0 <= j < i ==> data@[j] == 0u8,
            decreases MAX_MEM - i,
        {
            data.push(0u8);
            i = i + 1;
        }
        Memory { data }
    }

    /// Reads the byte stored at a known-good address.
    pub(crate) fn get(&self, address: u16) -> (r: u8)
        requires
            self.wf(),
        ensures
            r == self@[address as int],
    {
        self.data[address as usize]
    }

    /// Stores a byte at a known-good address.
    pub(crate) fn put(&mut self, address: u16, data: u8)
        requires
            old(self).wf(),
        ensures
            final(self).wf(),
            final(self)@ == old(self)@.update(address as int, data),
    {
        self.data[address as usize] = data;
    }

    /// Reads the byte at `address`; fails with `OutOfBounds` if and only if
    /// `address` is not below `MAX_MEM`.
    pub fn read_byte(&self, address: usize) -> (r: Result<u8, ErrorKind>)
        requires
            self.wf(),
        ensures
            match r {
                Ok(b) => address < MAX_MEM && b == self@[address as int],
                Err(k) => address >= MAX_MEM && k == ErrorKind::OutOfBounds,
            },
    {
        if address < MAX_MEM {
            Ok(self.data[address])
        } else {
            Err(ErrorKind::OutOfBounds)
        }
    }

    /// Writes a byte at `address`; fails with `OutOfBounds`, leaving the
    /// memory unchanged, if and only if `address` is not below `MAX_MEM`.
    pub fn write_byte(&mut self, address: usize, data: u8) -> (r: Result<(), ErrorKind>)
        requires
            old(self).wf(),
        ensures
            final(self).wf(),
            match r {
                Ok(()) => address < MAX_MEM && final(self)@ == old(self)@.update(
                    address as int,
                    data,
                ),
                Err(k) => address >= MAX_MEM && k == ErrorKind::OutOfBounds && final(self)@
                    == old(self)@,
            },
    {
        if address < MAX_MEM {
            self.data[address] = data;
            Ok(())
        } else {
            Err(ErrorKind::OutOfBounds)
        }
    }

    /// Reads the little-endian word whose low byte sits at `address`.  Both
    /// touched addresses must be in bounds: the word at `MAX_MEM - 1` does
    /// not wrap around, it fails with `OutOfBounds`.
    pub fn read_word(&self, address: usize) -> (r: Result<u16, ErrorKind>)
        requires
            self.wf(),
        ensures
            match r {
                Ok(w) => address + 1 < MAX_MEM && w == word_at(self@, address as int),
                Err(k) => address + 1 >= MAX_MEM && k == ErrorKind::OutOfBounds,
            },
    {
        if address < MAX_MEM - 1 {
            let lo = self.data[address];
            let hi = self.data[address + 1];
            Ok(lo as u16 + 256 * hi as u16)
        } else {
            Err(ErrorKind::OutOfBounds)
        }
    }

    /// Writes `data` as a little-endian word, low byte at `address`, high
    /// byte at `address + 1`.  Both touched addresses must be in bounds:
    /// the word at `MAX_MEM - 1` does not wrap around, it fails with
    /// `OutOfBounds`, leaving the memory unchanged.
    pub fn write_word(&mut self, address: usize, data: u16) -> (r: Result<(), ErrorKind>)
        requires
            old(self).wf(),
        ensures
            final(self).wf(),
            match r {
                Ok(()) => address + 1 < MAX_MEM && final(self)@ == old(self)@.update(
                    address as int,
                    (data % 256) as u8,
                ).update(address + 1, (data / 256) as u8),
                Err(k) => address + 1 >= MAX_MEM && k == ErrorKind::OutOfBounds && final(self)@
                    == old(self)@,
            },
    {
        if address < MAX_MEM - 1 {
            self.data[address] = (data % 256) as u8;
            self.data[address + 1] = (data / 256) as u8;
            Ok(())
        } else {
            Err(ErrorKind::OutOfBounds)
        }
    }
}

impl Default for Memory {
    /// Same as [`Memory::new`]: `MAX_MEM` bytes, all zero.
    fn default() -> (r: Memory)
        ensures
            r.wf(),
            forall|i: int| 0 <= i < MAX_MEM ==> r@[i] == 0u8,
    {
        Memory::new()
    }
}

} // verus!
