//! Mapper 0 (NROM): the address translation that sits on the cartridge
//! between the buses and its two memories.

use vstd::prelude::*;

verus! {

/// Where mapper 0 finds the CPU address `address` inside the program memory:
/// with two banks or more the 32 KiB window is taken as it is, with fewer the
/// one 16 KiB bank repeats through the window.
pub open spec fn prg_offset(prg_banks: u8, address: u16) -> u16 {
    if prg_banks > 1 {
        (address % 0x8000) as u16
    } else {
        (address % 0x4000) as u16
    }
}

/// The translation of `prg_offset` is the masking of the address with
/// `0x7FFF` or `0x3FFF`.
pub proof fn lemma_prg_offset_is_mask(prg_banks: u8, address: u16)
    ensures
        prg_offset(prg_banks, address) == address & if prg_banks > 1 {
            0x7FFFu16
        } else {
            0x3FFFu16
        },
{
    assert(address % 0x8000 == address & 0x7FFF) by (bit_vector);
    assert(address % 0x4000 == address & 0x3FFF) by (bit_vector);
}

/// The address translator of a mapper-0 cartridge.
#[derive(Clone, Copy, Debug, PartialEq, Eq, Structural)]
pub struct Mapper {
    /// Number of 16 KiB program banks on the cartridge.
    pub prg_banks: u8,
    /// Number of 8 KiB character banks on the cartridge.
    pub chr_banks: u8,
}

impl Mapper {
    /// The translator for a cartridge with the given bank counts.
    pub fn new(prg_banks: u8, chr_banks: u8) -> (mapper: Self)
        ensures
            mapper == (Mapper { prg_banks, chr_banks }),
    {
        Self { prg_banks, chr_banks }
    }

    /// The offset into program memory that the CPU address `address` maps to.
    pub fn get_prg_address(&self, address: u16) -> (offset: u16)
        ensures
            offset == prg_offset(self.prg_banks, address),
            offset < 0x8000,
            self.prg_banks <= 1 ==> offset < 0x4000,
    {
        proof {
            lemma_prg_offset_is_mask(self.prg_banks, address);
        }
        address & if self.prg_banks > 1 {
            0x7FFF
        } else {
            0x3FFF
        }
    }

    /// The offset into character memory that the PPU address `address` maps
    /// to: the address itself.
    pub fn get_chr_address(&self, address: u16) -> (offset: u16)
        ensures
            offset == address,
    {
        address
    }
}

} // verus!
