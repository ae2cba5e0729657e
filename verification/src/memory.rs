//! The addressable byte store: a fixed 4096-byte, zero-initialized memory
//! with bounds-checked access and a bulk program-loading operation.

use vstd::prelude::*;

verus! {

/// Total number of addressable bytes.
pub const MEM_SIZE: usize = 4096;

/// Programs are loaded starting at this fixed offset.
pub const PROGRAM_LOAD_OFFSET: usize = 0x200;

/// A fixed-size addressable byte store. Every access index must be below
/// `MEM_SIZE`; the store is never resized.
#[derive(Debug)]
pub struct Memory {
    bytes: Vec<u8>,
}

impl View for Memory {
    type V = Seq<u8>;

    closed spec fn view(&self) -> Seq<u8> {
        self.bytes@
    }
}

impl Memory {
    /// A memory holds exactly `MEM_SIZE` bytes.
    pub open spec fn wf(&self) -> bool {
        self@.len() == MEM_SIZE
    }

    /// Create a zero-initialized memory.
    pub fn new() -> (m: Memory)
        ensures
            m.wf(),
            m@ == Seq::<u8>::new(MEM_SIZE as nat, |j: int| 0u8),
    {
        let mut bytes: Vec<u8> = Vec::new();
        let mut k: usize = 0;
        while k < MEM_SIZE
            invariant
                k <= MEM_SIZE,
                bytes@.len() == k,
                forall|j: int| 0 <= j < k ==> bytes@[j] == 0u8,
            decreases MEM_SIZE - k,
        {
            bytes.push(0);
            k = k + 1;
        }
        let m = Memory { bytes };
        proof {
            assert(m@ =~= Seq::<u8>::new(MEM_SIZE as nat, |j: int| 0u8));
        }
        m
    }

    /// Read the byte at `addr`.
    pub fn read(&self, addr: usize) -> (b: u8)
        requires
            self.wf(),
            addr < MEM_SIZE,
        ensures
            b == self@[addr as int],
    {
        self.bytes[addr]
    }

    /// Write `value` at `addr`; every other byte is unchanged.
    pub fn write(&mut self, addr: usize, value: u8)
        requires
            old(self).wf(),
            addr < MEM_SIZE,
        ensures
            final(self).wf(),
            final(self)@ == old(self)@.update(addr as int, value),
    {
        self.bytes.set(addr, value);
    }

    /// Copy `program` verbatim into memory starting at `PROGRAM_LOAD_OFFSET`.
    /// A program that would run past the end of memory cannot be loaded.
    pub fn load_program(&mut self, program: &Vec<u8>)
        requires
            old(self).wf(),
            program@.len() <= MEM_SIZE - PROGRAM_LOAD_OFFSET,
        ensures
            final(self).wf(),
            final(self)@ == Seq::<u8>::new(
                MEM_SIZE as nat,
                |j: int| if PROGRAM_LOAD_OFFSET <= j < PROGRAM_LOAD_OFFSET + program@.len() {
                    program@[j - PROGRAM_LOAD_OFFSET]
                } else {
                    old(self)@[j]
                },
            ),
    {
        let mut k: usize = 0;
        while k < program.len()
            invariant
                self.wf(),
                k <= program@.len(),
                program@.len() <= MEM_SIZE - PROGRAM_LOAD_OFFSET,
                forall|j: int|
                    0 <= j < MEM_SIZE && !(PROGRAM_LOAD_OFFSET <= j < PROGRAM_LOAD_OFFSET + k)
                        ==> self@[j] == old(self)@[j],
                forall|j: int| PROGRAM_LOAD_OFFSET <= j < PROGRAM_LOAD_OFFSET + k
                    ==> self@[j] == program@[j - PROGRAM_LOAD_OFFSET],
            decreases program@.len() - k,
        {
            let b = program[k];
            self.bytes.set(PROGRAM_LOAD_OFFSET + k, b);
            k = k + 1;
        }
        proof {
            assert(self@ =~= Seq::<u8>::new(
                MEM_SIZE as nat,
                |j: int| if PROGRAM_LOAD_OFFSET <= j < PROGRAM_LOAD_OFFSET + program@.len() {
                    program@[j - PROGRAM_LOAD_OFFSET]
                } else {
                    old(self)@[j]
                },
            ));
        }
    }
}

} // verus!
