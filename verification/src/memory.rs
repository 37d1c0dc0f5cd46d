//! A linear byte store, usable as RAM, ROM or any other device that needs a
//! flat run of cells.

use vstd::prelude::*;

verus! {

/// What a store holds after `chunk` has been copied over its cells from
/// `start` on: the chunk's bytes in their places, every other cell as before.
pub open spec fn overlaid(cells: Seq<u8>, start: int, chunk: Seq<u8>) -> Seq<u8> {
    Seq::new(
        cells.len(),
        |i: int|
            if start <= i < start + chunk.len() {
                chunk[i - start]
            } else {
                cells[i]
            },
    )
}

/// A fixed number of byte cells, all zero when the store is made.
#[derive(Debug)]
pub struct Memory {
    cells: Vec<u8>,
}

impl View for Memory {
    type V = Seq<u8>;

    /// The cells, in address order.
    closed spec fn view(&self) -> Seq<u8> {
        self.cells@
    }
}

impl Clone for Memory {
    /// A second store with the same cells.
    fn clone(&self) -> (copy: Self)
        ensures
            copy@ == self@,
    {
        let cells = self.cells.clone();
        assert(cells@ =~= self.cells@);
        Memory { cells }
    }
}

impl Memory {
    /// A store of `capacity` cells, each holding zero.
    pub fn new(capacity: usize) -> (memory: Self)
        ensures
            memory@.len() == capacity,
            forall|i: int| 0 <= i < capacity ==> memory@[i] == 0,
    {
        Self { cells: vec![0u8; capacity] }
    }

    /// The number of cells.
    pub fn capacity(&self) -> (capacity: usize)
        ensures
            capacity == self@.len(),
    {
        self.cells.len()
    }

    /// The byte in the cell at `address`.
    pub fn read(&self, address: u16) -> (value: u8)
        requires
            address < self@.len(),
        ensures
            value == self@[address as int],
    {
        self.cells[address as usize]
    }

    /// Puts `value` into the cell at `address`.
    pub fn write(&mut self, address: u16, value: u8)
        requires
            address < old(self)@.len(),
        ensures
            final(self)@ == old(self)@.update(address as int, value),
    {
        self.cells[address as usize] = value;
    }

    /// Copies `value` over the cells from `address` on.
    pub fn write_chunk(&mut self, address: u16, value: &[u8])
        requires
            address + value@.len() <= old(self)@.len(),
        ensures
            final(self)@ == overlaid(old(self)@, address as int, value@),
    {
        let start = address as usize;
        let mut i: usize = 0;
        while i < value.len()
            invariant
                i <= value@.len(),
                start == address,
                start + value@.len() <= self.cells.len(),
                self.cells@.len() == old(self).cells@.len(),
                forall|k: int|
                    0 <= k < self.cells@.len() ==> self.cells@[k] == if start <= k < start + i {
                        value@[k - start]
                    } else {
                        old(self).cells@[k]
                    },
            decreases value@.len() - i,
        {
            self.cells[start + i] = value[i];
            i += 1;
        }
        assert(self.cells@ =~= overlaid(old(self).cells@, address as int, value@));
    }
}

} // verus!
