use vstd::prelude::*;

use crate::fault::Fault;

verus! {

/// Size of the address space in bytes.
pub const MEMORY_SIZE: usize = 4096;

/// Number of bytes taken by the built-in font: sixteen 5-byte glyphs.
pub const FONT_BYTES: usize = 80;

/// The built-in font: one 5-byte sprite per hexadecimal digit, kept at
/// address 0 and restored on every reset.
pub open spec fn font() -> Seq<u8> {
    seq![
        0xF0u8, 0x90, 0x90, 0x90, 0xF0, 0x20, 0x60, 0x20, 0x20, 0x70, 0xF0, 0x10, 0xF0, 0x80,
        0xF0, 0xF0, 0x10, 0xF0, 0x10, 0xF0, 0x90, 0x90, 0xF0, 0x10, 0x10, 0xF0, 0x80, 0xF0,
        0x10, 0xF0, 0xF0, 0x80, 0xF0, 0x90, 0xF0, 0xF0, 0x10, 0x20, 0x40, 0x40, 0xF0, 0x90,
        0xF0, 0x90, 0xF0, 0xF0, 0x90, 0xF0, 0x10, 0xF0, 0xF0, 0x90, 0xF0, 0x90, 0x90, 0xE0,
        0x90, 0xE0, 0x90, 0xE0, 0xF0, 0x80, 0x80, 0x80, 0xF0, 0xE0, 0x90, 0x90, 0x90, 0xE0,
        0xF0, 0x80, 0xF0, 0x80, 0xF0, 0xF0, 0x80, 0xF0, 0x80, 0x80,
    ]
}

/// The contents of memory right after a reset: the font at address 0,
/// zeroes everywhere else.
pub open spec fn initial_memory() -> Seq<u8> {
    Seq::new(
        MEMORY_SIZE as nat,
        |i: int|
            if 0 <= i < FONT_BYTES {
                font()[i]
            } else {
                0u8
            },
    )
}

/// The addressable byte store: 4096 bytes of RAM with the font sprites
/// preloaded at address 0.
///
/// Every access is bounds-checked; an address outside the 4096-byte
/// space is reported as a fault rather than being an undefined access.
pub struct Memory {
    ram: Vec<u8>,
}

impl View for Memory {
    type V = Seq<u8>;

    closed spec fn view(&self) -> Seq<u8> {
        self.ram@
    }
}

impl Memory {
    /// Memory always spans the full address space.
    pub open spec fn wf(self) -> bool {
        self@.len() == MEMORY_SIZE
    }

    /// Fresh memory in its initial state: font loaded, the rest zeroed.
    pub fn new() -> (r: Self)
        ensures
            r.wf(),
            r@ == initial_memory(),
    {
        let mut memory = Memory { ram: Vec::new() };
        let mut i: usize = 0;
        while i < MEMORY_SIZE
            invariant
                i <= MEMORY_SIZE,
                memory@.len() == i,
            decreases MEMORY_SIZE - i,
        {
            memory.ram.push(0);
            i += 1;
        }
        memory.reset();
        memory
    }

    /// Read the big-endian byte pair at `index`, used for instruction
    /// fetch. Both bytes must lie inside the address space.
    pub fn two_byte_read(&self, index: u16) -> (r: Result<(u8, u8), Fault>)
        requires
            self.wf(),
        ensures
            index + 1 < MEMORY_SIZE ==> r == Ok::<(u8, u8), Fault>(
                (self@[index as int], self@[index as int + 1]),
            ),
            index + 1 >= MEMORY_SIZE ==> r == Err::<(u8, u8), Fault>(
                Fault::AddressOutOfRange(index),
            ),
    {
        if (index as usize) + 1 < MEMORY_SIZE {
            Ok((self.ram[index as usize], self.ram[index as usize + 1]))
        } else {
            Err(Fault::AddressOutOfRange(index))
        }
    }

    /// Read the byte at `index`.
    pub fn byte_read(&self, index: u16) -> (r: Result<u8, Fault>)
        requires
            self.wf(),
        ensures
            index < MEMORY_SIZE ==> r == Ok::<u8, Fault>(self@[index as int]),
            index >= MEMORY_SIZE ==> r == Err::<u8, Fault>(Fault::AddressOutOfRange(index)),
    {
        if (index as usize) < MEMORY_SIZE {
            Ok(self.ram[index as usize])
        } else {
            Err(Fault::AddressOutOfRange(index))
        }
    }

    /// Write a byte at `index`.
    pub fn byte_write(&mut self, index: u16, value: u8) -> (r: Result<(), Fault>)
        requires
            old(self).wf(),
        ensures
            final(self).wf(),
            index < MEMORY_SIZE ==> r == Ok::<(), Fault>(()) && final(self)@ == old(
                self,
            )@.update(index as int, value),
            index >= MEMORY_SIZE ==> r == Err::<(), Fault>(Fault::AddressOutOfRange(index))
                && final(self)@ == old(self)@,
    {
        if (index as usize) < MEMORY_SIZE {
            self.ram[index as usize] = value;
            Ok(())
        } else {
            Err(Fault::AddressOutOfRange(index))
        }
    }

    /// Write a whole byte sequence starting at `start_index`. The caller
    /// must have checked that the block fits inside the address space.
    pub fn bytes_write(&mut self, start_index: usize, bytes: &Vec<u8>)
        requires
            old(self).wf(),
            start_index + bytes@.len() <= MEMORY_SIZE,
        ensures
            final(self).wf(),
            final(self)@ == old(self)@.take(start_index as int) + bytes@ + old(self)@.skip(
                start_index + bytes@.len(),
            ),
    {
        let mut i: usize = 0;
        while i < bytes.len()
            invariant
                i <= bytes@.len(),
                start_index + bytes@.len() <= MEMORY_SIZE,
                self@.len() == MEMORY_SIZE,
                forall|k: int|
                    0 <= k < MEMORY_SIZE && !(start_index <= k < start_index + i) ==> self@[k]
                        == old(self)@[k],
                forall|k: int|
                    start_index <= k < start_index + i ==> self@[k] == bytes@[k - start_index],
            decreases bytes@.len() - i,
        {
            self.ram[start_index + i] = bytes[i];
            i += 1;
        }
        proof {
            assert(self@ =~= old(self)@.take(start_index as int) + bytes@ + old(self)@.skip(
                start_index + bytes@.len(),
            ));
        }
    }

    /// Restore memory to its initial state: zero everything, then
    /// rewrite the font table at address 0.
    pub fn reset(&mut self)
        requires
            old(self).wf(),
        ensures
            final(self).wf(),
            final(self)@ == initial_memory(),
    {
        let mut i: usize = 0;
        while i < MEMORY_SIZE
            invariant
                i <= MEMORY_SIZE,
                self@.len() == MEMORY_SIZE,
                forall|k: int| 0 <= k < i ==> self@[k] == 0u8,
            decreases MEMORY_SIZE - i,
        {
            self.ram[i] = 0;
            i += 1;
        }
        let sprites: Vec<u8> = vec![
            0xF0, 0x90, 0x90, 0x90, 0xF0, 0x20, 0x60, 0x20, 0x20, 0x70, 0xF0, 0x10, 0xF0, 0x80,
            0xF0, 0xF0, 0x10, 0xF0, 0x10, 0xF0, 0x90, 0x90, 0xF0, 0x10, 0x10, 0xF0, 0x80, 0xF0,
            0x10, 0xF0, 0xF0, 0x80, 0xF0, 0x90, 0xF0, 0xF0, 0x10, 0x20, 0x40, 0x40, 0xF0, 0x90,
            0xF0, 0x90, 0xF0, 0xF0, 0x90, 0xF0, 0x10, 0xF0, 0xF0, 0x90, 0xF0, 0x90, 0x90, 0xE0,
            0x90, 0xE0, 0x90, 0xE0, 0xF0, 0x80, 0x80, 0x80, 0xF0, 0xE0, 0x90, 0x90, 0x90, 0xE0,
            0xF0, 0x80, 0xF0, 0x80, 0xF0, 0xF0, 0x80, 0xF0, 0x80, 0x80,
        ];
        proof {
            assert(sprites@ =~= font());
        }
        self.bytes_write(0, &sprites);
        proof {
            assert(self@ =~= initial_memory());
        }
    }
}

} // verus!
