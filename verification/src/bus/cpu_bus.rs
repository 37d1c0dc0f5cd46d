//! The bus of the CPU: a router that sends each 16-bit address to RAM, to the
//! picture processor's registers or to the cartridge's program memory.

use crate::cartridge::Cartridge;
use crate::cartridge::CartridgeView;
use crate::memory::Memory;
use crate::ppu::PPU;
use std::rc::Rc;
use vstd::prelude::*;

verus! {

/// First address that reaches RAM.
pub const RAM_ADDRESS_LO: u16 = 0x0000;

/// Last address that reaches RAM.
pub const RAM_ADDRESS_HI: u16 = 0x1FFF;

/// First address that reaches a register of the picture processor.
pub const PPU_REGISTERS_ADDRESS_LO: u16 = 0x2000;

/// Last address that reaches a register of the picture processor.
pub const PPU_REGISTERS_ADDRESS_HI: u16 = 0x3FFF;

/// First address that reaches the cartridge's program memory.
pub const CARTRIDGE_PRG_ADDRESS_LO: u16 = 0x8000;

/// Last address that reaches the cartridge's program memory.
pub const CARTRIDGE_PRG_ADDRESS_HI: u16 = 0xFFFF;

/// Low byte of the vector that an interrupt request jumps through.
pub const IRQ_VECTOR_ADDRESS_LO: u16 = 0xFFFE;

/// High byte of the vector that an interrupt request jumps through.
pub const IRQ_VECTOR_ADDRESS_HI: u16 = 0xFFFF;

/// Low byte of the vector that a non-maskable interrupt jumps through.
pub const NMI_VECTOR_ADDRESS_LO: u16 = 0xFFFA;

/// High byte of the vector that a non-maskable interrupt jumps through.
pub const NMI_VECTOR_ADDRESS_HI: u16 = 0xFFFB;

/// Low byte of the vector that a reset jumps through.
pub const RESET_VECTOR_ADDRESS_LO: u16 = 0xFFFC;

/// High byte of the vector that a reset jumps through.
pub const RESET_VECTOR_ADDRESS_HI: u16 = 0xFFFD;

/// Size of the RAM that is wired up: the 8 KiB window shows it four times.
pub const RAM_SIZE: u16 = 0x0800;

/// The RAM cell behind `address`. The window is 8 KiB wide and the RAM 2 KiB,
/// so the cell is the address taken modulo 2 KiB.
pub open spec fn ram_cell(address: u16) -> u16 {
    (address % 0x0800) as u16
}

/// The register of the picture processor behind `address`: there are eight,
/// repeated through the window.
pub open spec fn ppu_register(address: u16) -> u16 {
    (address % 8) as u16
}

/// The RAM cell behind an address is the address masked with `0x07FF`, the
/// register behind one the address masked with `0x0007`.
pub proof fn lemma_mirrors_are_masks(address: u16)
    ensures
        ram_cell(address) == address & 0x07FF,
        ppu_register(address) == address & 0x0007,
{
    assert(address % 0x0800 == address & 0x07FF) by (bit_vector);
    assert(address % 8 == address & 0x0007) by (bit_vector);
}

/// What the CPU can reach through its bus: the RAM and the cartridge. The
/// registers of the picture processor hold nothing.
pub struct BusView {
    /// The RAM cells.
    pub ram: Seq<u8>,
    /// The cartridge.
    pub cartridge: CartridgeView,
}

impl BusView {
    /// Whether the device that `address` is routed to has a cell for it.
    pub open spec fn backs(self, address: u16) -> bool {
        &&& address <= RAM_ADDRESS_HI ==> ram_cell(address) < self.ram.len()
        &&& address >= CARTRIDGE_PRG_ADDRESS_LO ==> self.cartridge.has_prg(address)
    }

    /// Whether every address has a cell behind it: the RAM holds its 2 KiB,
    /// and program memory fills the window that the mapper shows of it.
    pub open spec fn complete(self) -> bool {
        &&& self.ram.len() >= RAM_SIZE
        &&& self.cartridge.prg.len() >= if self.cartridge.mapper.prg_banks > 1 {
            0x8000int
        } else {
            0x4000int
        }
    }

    /// The byte that a read of `address` returns: a RAM cell, zero for a
    /// register of the picture processor, a byte of program memory, and zero
    /// where no device answers.
    pub open spec fn peek(self, address: u16) -> u8 {
        if address <= RAM_ADDRESS_HI {
            self.ram[ram_cell(address) as int]
        } else if address <= PPU_REGISTERS_ADDRESS_HI {
            0
        } else if address >= CARTRIDGE_PRG_ADDRESS_LO {
            self.cartridge.prg_at(address)
        } else {
            0
        }
    }

    /// The devices after a write of `value` to `address`: one RAM cell or one
    /// byte of program memory has changed, or nothing has.
    pub open spec fn poke(self, address: u16, value: u8) -> BusView {
        if address <= RAM_ADDRESS_HI {
            BusView { ram: self.ram.update(ram_cell(address) as int, value), ..self }
        } else if address <= PPU_REGISTERS_ADDRESS_HI {
            self
        } else if address >= CARTRIDGE_PRG_ADDRESS_LO {
            BusView { cartridge: self.cartridge.prg_put(address, value), ..self }
        } else {
            self
        }
    }
}

/// The 8 KiB window shows the 2 KiB of RAM four times: reading any address of
/// the window is reading the address masked with `0x07FF`, and so is writing
/// to it.
pub proof fn lemma_ram_mirrored(bus: BusView, address: u16)
    requires
        address <= RAM_ADDRESS_HI,
    ensures
        bus.peek(address) == bus.peek(address & 0x07FF),
        forall|value: u8| bus.poke(address, value) == bus.poke(address & 0x07FF, value),
{
    lemma_mirrors_are_masks(address);
}

/// A byte written through the window is read back at the address written
/// and at each of its mirrors, and at no other address of the window.
pub proof fn lemma_ram_write_seen(bus: BusView, address: u16, value: u8, probe: u16)
    requires
        bus.complete(),
        address <= RAM_ADDRESS_HI,
        probe <= RAM_ADDRESS_HI,
    ensures
        bus.poke(address, value).peek(probe) == if ram_cell(probe) == ram_cell(address) {
            value
        } else {
            bus.peek(probe)
        },
{
}

/// The router between the CPU and the devices that it can address.
pub struct CpuBus {
    ram: Memory,
    ppu: PPU,
    cartridge: Cartridge,
}

impl View for CpuBus {
    type V = BusView;

    /// The RAM and the cartridge on this bus.
    closed spec fn view(&self) -> BusView {
        BusView { ram: self.ram@, cartridge: self.cartridge@ }
    }
}

impl CpuBus {
    /// A bus over the given devices. The bus is the only writer of program
    /// memory, so it keeps a copy of the cartridge for itself.
    pub fn new(ram: Memory, ppu: PPU, cartridge: Rc<Cartridge>) -> (bus: Self)
        ensures
            bus@ == (BusView { ram: ram@, cartridge: cartridge@ }),
    {
        let own = (*cartridge).clone();
        Self { ram, ppu, cartridge: own }
    }

    /// Whether every address has a cell behind it.
    pub fn is_complete(&self) -> (complete: bool)
        ensures
            complete == self@.complete(),
    {
        self.ram.capacity() >= 0x0800
            && self.cartridge.prg_capacity() >= self.cartridge.prg_window()
    }

    /// The byte at `address`.
    pub fn read(&self, address: u16) -> (value: u8)
        requires
            self@.backs(address),
        ensures
            value == self@.peek(address),
    {
        if address <= RAM_ADDRESS_HI {
            self.ram.read(self.get_mirrored_ram_address(address))
        } else if address <= PPU_REGISTERS_ADDRESS_HI {
            self.ppu.read(self.get_mirrored_ppu_address(address))
        } else if address >= CARTRIDGE_PRG_ADDRESS_LO {
            self.cartridge.prg_read(address)
        } else {
            0
        }
    }

    /// Writes `value` at `address`.
    pub fn write(&mut self, address: u16, value: u8)
        requires
            old(self)@.backs(address),
        ensures
            final(self)@ == old(self)@.poke(address, value),
    {
        if address <= RAM_ADDRESS_HI {
            let cell = self.get_mirrored_ram_address(address);
            self.ram.write(cell, value);
        } else if address <= PPU_REGISTERS_ADDRESS_HI {
            self.ppu.write(self.get_mirrored_ppu_address(address), value);
        } else if address >= CARTRIDGE_PRG_ADDRESS_LO {
            self.cartridge.prg_write(address, value);
        }
    }

    /// The RAM cell behind `address`.
    pub fn get_mirrored_ram_address(&self, address: u16) -> (cell: u16)
        ensures
            cell == ram_cell(address),
    {
        proof {
            lemma_mirrors_are_masks(address);
        }
        address & 0x07FF
    }

    /// The register of the picture processor behind `address`.
    pub fn get_mirrored_ppu_address(&self, address: u16) -> (register: u16)
        ensures
            register == ppu_register(address),
    {
        proof {
            lemma_mirrors_are_masks(address);
        }
        address & 0x0007
    }
}

} // verus!
