//! The machine state: a tape of byte cells and a pointer into it.
use crate::result::{BfResult, Error};
use vstd::prelude::*;

verus! {

/// The default number of 8-bit memory cells, as used by `State::new`.
pub const DEFAULT_CAPACITY: usize = 30000;

/// `a + b` modulo 256.
pub open spec fn add_wrapped(a: u8, b: u8) -> u8 {
    ((a + b) % 256) as u8
}

/// `a - b` modulo 256.
pub open spec fn sub_wrapped(a: u8, b: u8) -> u8 {
    ((a - b + 256) % 256) as u8
}

/// The machine state.
#[derive(Clone, Debug, PartialEq, Eq)]
pub struct State {
    memory: Vec<u8>,
    pointer: usize,
}

impl State {
    /// The contents of memory.
    pub closed spec fn cells(&self) -> Seq<u8> {
        self.memory@
    }

    /// The index of the cell under the pointer.
    pub closed spec fn position(&self) -> usize {
        self.pointer
    }

    /// The pointer is on a cell of memory.
    pub open spec fn wf(&self) -> bool {
        self.position() < self.cells().len()
    }

    /// Creates a new machine state with capacity `DEFAULT_CAPACITY`.
    pub fn new() -> (r: Self)
        ensures
            r.wf(),
            r.cells() == Seq::new(DEFAULT_CAPACITY as nat, |i: int| 0u8),
            r.position() == 0,
    {
        Self::with_capacity(DEFAULT_CAPACITY)
    }

    /// Creates a new machine state of `capacity` zeroed cells, with the pointer on the first.
    pub fn with_capacity(capacity: usize) -> (r: Self)
        requires
            capacity > 0,
        ensures
            r.wf(),
            r.cells() == Seq::new(capacity as nat, |i: int| 0u8),
            r.position() == 0,
    {
        let memory = vec![0u8; capacity];
        assert(memory@ =~= Seq::new(capacity as nat, |i: int| 0u8));
        State { memory, pointer: 0 }
    }

    /// Creates a machine state with the given memory and pointer.
    pub fn with_memory(memory: Vec<u8>, pointer: usize) -> (r: Self)
        requires
            pointer < memory@.len(),
        ensures
            r.wf(),
            r.cells() == memory@,
            r.position() == pointer,
    {
        State { memory, pointer }
    }

    /// Decrements the pointer.
    ///
    /// # Errors
    ///
    /// Return `Err` if pointer would go below 0.
    pub fn left(&mut self, count: usize) -> (r: BfResult<()>)
        requires
            old(self).wf(),
        ensures
            final(self).wf(),
            final(self).cells() == old(self).cells(),
            count <= old(self).position() ==> r is Ok,
            count <= old(self).position() ==> final(self).position() == old(self).position()
                - count,
            count > old(self).position() ==> r == Err::<(), Error>(Error::PointerUnderflow),
            count > old(self).position() ==> final(self).position() == old(self).position(),
    {
        match self.neg_offset(count) {
            Ok(p) => {
                self.pointer = p;
                Ok(())
            },
            Err(e) => Err(e),
        }
    }

    /// Increments the pointer.
    ///
    /// # Errors
    ///
    /// Return `Err` if pointer would go past the end of the memory.
    pub fn right(&mut self, count: usize) -> (r: BfResult<()>)
        requires
            old(self).wf(),
        ensures
            final(self).wf(),
            final(self).cells() == old(self).cells(),
            old(self).position() + count < old(self).cells().len() ==> r is Ok,
            old(self).position() + count < old(self).cells().len() ==> final(self).position()
                == old(self).position() + count,
            old(self).position() + count >= old(self).cells().len() ==> r == Err::<(), Error>(
                Error::PointerOverflow,
            ),
            old(self).position() + count >= old(self).cells().len() ==> final(self).position()
                == old(self).position(),
    {
        match self.pos_offset(count) {
            Ok(p) => {
                self.pointer = p;
                Ok(())
            },
            Err(e) => Err(e),
        }
    }

    /// The index `offset` cells right of the pointer, if it is in memory.
    fn pos_offset(&self, offset: usize) -> (r: BfResult<usize>)
        requires
            self.wf(),
        ensures
            (r is Ok) == (self.position() + offset < self.cells().len()),
            r is Ok ==> r->Ok_0 == self.position() + offset,
            r is Err ==> r->Err_0 == Error::PointerOverflow,
    {
        if offset < self.memory.len() - self.pointer {
            Ok(self.pointer + offset)
        } else {
            Err(Error::PointerOverflow)
        }
    }

    /// The index `offset` cells left of the pointer, if it is in memory.
    fn neg_offset(&self, offset: usize) -> (r: BfResult<usize>)
        ensures
            (r is Ok) == (offset <= self.position()),
            r is Ok ==> r->Ok_0 == self.position() - offset,
            r is Err ==> r->Err_0 == Error::PointerUnderflow,
    {
        if self.pointer >= offset {
            Ok(self.pointer - offset)
        } else {
            Err(Error::PointerUnderflow)
        }
    }

    /// Increments the byte at the pointer.
    ///
    /// Wraps around modulo 256.
    pub fn up(&mut self, count: u8)
        requires
            old(self).wf(),
        ensures
            final(self).wf(),
            final(self).position() == old(self).position(),
            final(self).cells() == old(self).cells().update(
                old(self).position() as int,
                add_wrapped(old(self).cells()[old(self).position() as int], count),
            ),
    {
        let old = self.load();
        self.store(old.wrapping_add(count));
    }

    /// Decrements the byte at the pointer.
    ///
    /// Wraps around modulo 256.
    pub fn down(&mut self, count: u8)
        requires
            old(self).wf(),
        ensures
            final(self).wf(),
            final(self).position() == old(self).position(),
            final(self).cells() == old(self).cells().update(
                old(self).position() as int,
                sub_wrapped(old(self).cells()[old(self).position() as int], count),
            ),
    {
        let old = self.load();
        self.store(old.wrapping_sub(count));
    }

    /// Gets the value of the byte at the pointer.
    pub fn load(&self) -> (r: u8)
        requires
            self.wf(),
        ensures
            r == self.cells()[self.position() as int],
    {
        self.memory[self.pointer]
    }

    /// Sets the value of the byte at the pointer.
    pub fn store(&mut self, value: u8)
        requires
            old(self).wf(),
        ensures
            final(self).wf(),
            final(self).position() == old(self).position(),
            final(self).cells() == old(self).cells().update(old(self).position() as int, value),
    {
        self.memory.set(self.pointer, value);
    }

    /// Adds the given value at the given positive offset from the pointer.
    pub fn up_pos_offset(&mut self, offset: usize, value: u8) -> (r: BfResult<()>)
        requires
            old(self).wf(),
        ensures
            final(self).wf(),
            final(self).position() == old(self).position(),
            ({
                let a = old(self).position() + offset;
                if a < old(self).cells().len() {
                    &&& r is Ok
                    &&& final(self).cells() == old(self).cells().update(
                        a,
                        add_wrapped(old(self).cells()[a], value),
                    )
                } else {
                    &&& r == Err::<(), Error>(Error::PointerOverflow)
                    &&& final(self).cells() == old(self).cells()
                }
            }),
    {
        match self.pos_offset(offset) {
            Ok(address) => {
                let old = self.memory[address];
                self.memory.set(address, old.wrapping_add(value));
                Ok(())
            },
            Err(e) => Err(e),
        }
    }

    /// Adds the given value at the given negative offset from the pointer.
    pub fn up_neg_offset(&mut self, offset: usize, value: u8) -> (r: BfResult<()>)
        requires
            old(self).wf(),
        ensures
            final(self).wf(),
            final(self).position() == old(self).position(),
            ({
                let a = old(self).position() - offset;
                if a >= 0 {
                    &&& r is Ok
                    &&& final(self).cells() == old(self).cells().update(
                        a,
                        add_wrapped(old(self).cells()[a], value),
                    )
                } else {
                    &&& r == Err::<(), Error>(Error::PointerUnderflow)
                    &&& final(self).cells() == old(self).cells()
                }
            }),
    {
        match self.neg_offset(offset) {
            Ok(address) => {
                let old = self.memory[address];
                self.memory.set(address, old.wrapping_add(value));
                Ok(())
            },
            Err(e) => Err(e),
        }
    }

    /// Stores a byte of input into the cell at the pointer; at the end of the input
    /// (`None`) the cell becomes zero.
    pub fn read(&mut self, input: Option<u8>)
        requires
            old(self).wf(),
        ensures
            final(self).wf(),
            final(self).position() == old(self).position(),
            final(self).cells() == old(self).cells().update(
                old(self).position() as int,
                match input {
                    Some(b) => b,
                    None => 0u8,
                },
            ),
    {
        let byte = match input {
            Some(b) => b,
            None => 0,
        };
        self.store(byte);
    }

    /// Appends the byte at the pointer to the output.
    pub fn write(&self, output: &mut Vec<u8>)
        requires
            self.wf(),
        ensures
            final(output)@ == old(output)@.push(self.cells()[self.position() as int]),
    {
        output.push(self.load());
    }
}

} // verus!
