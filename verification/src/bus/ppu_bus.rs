//! The bus of the picture processor, which reaches the cartridge's character
//! memory.

use crate::cartridge::Cartridge;
use crate::cartridge::CartridgeView;
use std::rc::Rc;
use vstd::prelude::*;

verus! {

/// First address of the character memory window.
pub const CARTRIDGE_CHR_ADDRESS_LO: u16 = 0x0000;

/// Last address of the character memory window.
pub const CARTRIDGE_CHR_ADDRESS_HI: u16 = 0x1FFF;

/// What the picture processor reads at `address`: the cartridge's character
/// memory inside its window, zero outside it.
pub open spec fn ppu_peek(cartridge: CartridgeView, address: u16) -> u8 {
    if address <= CARTRIDGE_CHR_ADDRESS_HI {
        cartridge.chr[address as int]
    } else {
        0
    }
}

/// The router between the picture processor and the cartridge.
pub struct PpuBus {
    cartridge: Rc<Cartridge>,
}

impl View for PpuBus {
    type V = CartridgeView;

    /// The cartridge on this bus.
    closed spec fn view(&self) -> CartridgeView {
        self.cartridge@
    }
}

impl PpuBus {
    /// A bus that reaches `cartridge`.
    pub fn new(cartridge: Rc<Cartridge>) -> (bus: Self)
        ensures
            bus@ == cartridge@,
    {
        Self { cartridge }
    }

    /// The byte at `address`.
    pub fn read(&self, address: u16) -> (value: u8)
        requires
            address <= CARTRIDGE_CHR_ADDRESS_HI ==> address < self@.chr.len(),
        ensures
            value == ppu_peek(self@, address),
    {
        if address <= CARTRIDGE_CHR_ADDRESS_HI {
            self.cartridge.chr_read(address)
        } else {
            0
        }
    }

    /// Writes `value` at `address`: nothing on this bus takes a write.
    pub fn write(&self, address: u16, value: u8) {
    }
}

} // verus!
