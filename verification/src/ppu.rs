//! The picture processor, as far as the CPU sees it: eight memory-mapped
//! registers behind the CPU bus.

use crate::bus::ppu_bus::PpuBus;
use crate::cartridge::CartridgeView;
use vstd::prelude::*;

verus! {

/// The picture processor. Its registers hold nothing yet: each reads as zero
/// and takes any write without effect.
pub struct PPU {
    bus: PpuBus,
}

impl View for PPU {
    type V = CartridgeView;

    /// The cartridge that the picture processor reaches through its bus.
    closed spec fn view(&self) -> CartridgeView {
        self.bus@
    }
}

impl PPU {
    /// A picture processor on the given bus.
    pub fn new(bus: PpuBus) -> (ppu: Self)
        ensures
            ppu@ == bus@,
    {
        Self { bus }
    }

    /// The value of the register at `address`: zero.
    pub fn read(&self, address: u16) -> (value: u8)
        ensures
            value == 0,
    {
        0
    }

    /// Writes `value` to the register at `address`, which keeps nothing of it.
    pub fn write(&self, address: u16, value: u8) {
    }
}

} // verus!
