//! A RAM chip of a size fixed at compile time, addressed modulo its size.

use crate::bus::Bus;
use crate::bus::BusDevice;
use crate::bus::RAM_ADDRESS_HI;
use crate::memory::overlaid;
use vstd::prelude::*;

verus! {

/// `SIZE` byte cells. An address selects the cell of its value modulo `SIZE`.
pub struct RAM<const SIZE: usize> {
    memory: [u8; SIZE],
}

impl<const SIZE: usize> View for RAM<SIZE> {
    type V = Seq<u8>;

    /// The cells, in order.
    closed spec fn view(&self) -> Seq<u8> {
        self.memory@
    }
}

impl<const SIZE: usize> RAM<SIZE> {
    /// The cell that `address` selects.
    pub open spec fn index_of(address: u16) -> int {
        address as int % SIZE as int
    }

    /// A chip whose cells all hold zero.
    pub fn new() -> (ram: Self)
        ensures
            ram@.len() == SIZE,
            forall|i: int| 0 <= i < SIZE ==> ram@[i] == 0,
    {
        Self { memory: [0;SIZE] }
    }

    /// The cell that `address` selects.
    pub fn get_index(&self, address: u16) -> (index: usize)
        requires
            SIZE > 0,
        ensures
            index == Self::index_of(address),
            index < SIZE,
    {
        (address as usize) % SIZE
    }

    /// Copies `program` over the cells from the one that `start_address`
    /// selects on.
    pub fn load_program(&mut self, program: &[u8], start_address: u16)
        requires
            SIZE > 0,
            Self::index_of(start_address) + program@.len() <= SIZE,
        ensures
            final(self)@ == overlaid(old(self)@, Self::index_of(start_address), program@),
    {
        let start_index = self.get_index(start_address);
        let mut i: usize = 0;
        while i < program.len()
            invariant
                i <= program@.len(),
                start_index == Self::index_of(start_address),
                start_index + program@.len() <= SIZE,
                self.memory@.len() == SIZE,
                forall|k: int|
                    0 <= k < SIZE ==> self.memory@[k] == if start_index <= k < start_index + i {
                        program@[k - start_index]
                    } else {
                        old(self).memory@[k]
                    },
            decreases program@.len() - i,
        {
            self.memory[start_index + i] = program[i];
            i += 1;
        }
        assert(self.memory@ =~= overlaid(
            old(self).memory@,
            Self::index_of(start_address),
            program@,
        ));
    }
}

impl<const SIZE: usize> BusDevice for RAM<SIZE> {
    /// A chip without cells can be neither read nor written.
    open spec fn usable(&self) -> bool {
        SIZE > 0
    }

    open spec fn cell(&self, address: u16) -> int {
        Self::index_of(address)
    }

    open spec fn peek(&self, address: u16) -> u8 {
        self@[Self::index_of(address)]
    }

    fn read(&self, address: u16) -> (value: u8) {
        self.memory[self.get_index(address)]
    }

    fn write(&mut self, address: u16, value: u8) {
        let index = self.get_index(address);
        self.memory[index] = value;
    }
}

/// On a bus with 2 KiB of RAM the routed window shows the RAM four times:
/// reading any address of the window is reading the address masked with
/// `0x07FF`.
pub proof fn lemma_bus_ram_mirrored(bus: Bus<RAM<2048>>, address: u16)
    requires
        address <= RAM_ADDRESS_HI,
    ensures
        bus.peek(address) == bus.peek(address & 0x07FF),
{
    assert((address & 0x07FF) <= 0x1FFF && (address & 0x07FF) % 2048 == address % 2048)
        by (bit_vector);
}

} // verus!
