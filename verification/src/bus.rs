//! Buses: the routers between a processor and the devices that it addresses.
//!
//! This module holds the simplest of them, a bus with one device on it, and
//! the interface that such a device offers.

use vstd::prelude::*;

pub mod cpu_bus;
pub mod ppu_bus;

verus! {

/// First address that the one-device bus routes to its device.
pub const RAM_ADDRESS_LO: u16 = 0x0000;

/// Last address that the one-device bus routes to its device.
pub const RAM_ADDRESS_HI: u16 = 0x1FFF;

/// A bank of byte cells that can be put on a bus. Each address selects one
/// cell; several addresses may select the same one.
pub trait BusDevice {
    /// Whether the device can be read and written at all.
    spec fn usable(&self) -> bool;

    /// The cell that `address` selects.
    spec fn cell(&self, address: u16) -> int;

    /// The byte that a read of `address` returns.
    spec fn peek(&self, address: u16) -> u8;

    /// Reads the cell that `address` selects.
    fn read(&self, address: u16) -> (value: u8)
        requires
            self.usable(),
        ensures
            value == self.peek(address),
    ;

    /// Puts `value` into the cell that `address` selects. Every address of
    /// that cell then reads as `value`, every other address as before.
    fn write(&mut self, address: u16, value: u8)
        requires
            old(self).usable(),
        ensures
            final(self).usable(),
            forall|a: u16| final(self).cell(a) == old(self).cell(a),
            forall|a: u16|
                final(self).peek(a) == if old(self).cell(a) == old(self).cell(address) {
                    value
                } else {
                    old(self).peek(a)
                },
    ;
}

/// A bus with a single device on it.
pub struct Bus<D: BusDevice> {
    /// The device.
    pub ram: Box<D>,
}

impl<D: BusDevice> Bus<D> {
    /// Whether `address` is routed to the device. No device answers at any
    /// other address.
    pub open spec fn routes(address: u16) -> bool {
        address <= RAM_ADDRESS_HI
    }

    /// The byte that a read of `address` returns: the device's inside the
    /// routed range, zero outside it.
    pub open spec fn peek(&self, address: u16) -> u8 {
        if Self::routes(address) {
            self.ram.peek(address)
        } else {
            0
        }
    }

    /// A bus with `ram` on it.
    pub fn new(ram: Box<D>) -> (bus: Self)
        ensures
            bus.ram == ram,
    {
        Self { ram: ram }
    }

    /// The byte at `address`.
    pub fn read(&self, address: u16) -> (value: u8)
        requires
            Self::routes(address) ==> self.ram.usable(),
        ensures
            value == self.peek(address),
    {
        if address <= RAM_ADDRESS_HI {
            self.ram.read(address)
        } else {
            0
        }
    }

    /// Writes `value` at `address`. Inside the routed range the write goes to
    /// the device: every address of the cell written then reads as `value`,
    /// every other address as before. Outside it the write is ignored and
    /// the device stays as it was.
    pub fn write(&mut self, address: u16, value: u8)
        requires
            Self::routes(address) ==> old(self).ram.usable(),
        ensures
            final(self).ram.usable() == old(self).ram.usable(),
            forall|a: u16| final(self).ram.cell(a) == old(self).ram.cell(a),
            forall|a: u16|
                final(self).ram.peek(a) == if Self::routes(address) && old(self).ram.cell(a)
                    == old(self).ram.cell(address) {
                    value
                } else {
                    old(self).ram.peek(a)
                },
            !Self::routes(address) ==> final(self).ram == old(self).ram,
    {
        if address <= RAM_ADDRESS_HI {
            self.ram.write(address, value);
        }
    }
}

} // verus!
