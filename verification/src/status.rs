//! The processor status register: eight independent flag bits, laid out from
//! bit 7 down to bit 0 as `N V U B D I Z C`.

use vstd::prelude::*;

verus! {

/// One bit of the status register.
#[derive(Clone, Copy, Debug, PartialEq, Eq, Structural)]
pub enum Flag {
    Carry,
    Zero,
    Interrupt,
    Decimal,
    Break,
    Unused,
    Overflow,
    Negative,
}

impl Flag {
    /// The bit that this flag occupies in the status byte.
    pub open spec fn mask_spec(self) -> u8 {
        match self {
            Flag::Carry => 0b0000_0001,
            Flag::Zero => 0b0000_0010,
            Flag::Interrupt => 0b0000_0100,
            Flag::Decimal => 0b0000_1000,
            Flag::Break => 0b0001_0000,
            Flag::Unused => 0b0010_0000,
            Flag::Overflow => 0b0100_0000,
            Flag::Negative => 0b1000_0000,
        }
    }

    /// The bit that this flag occupies in the status byte.
    #[verifier::when_used_as_spec(mask_spec)]
    pub fn mask(self) -> (m: u8)
        ensures
            m == self.mask_spec(),
    {
        match self {
            Flag::Carry => 0b0000_0001,
            Flag::Zero => 0b0000_0010,
            Flag::Interrupt => 0b0000_0100,
            Flag::Decimal => 0b0000_1000,
            Flag::Break => 0b0001_0000,
            Flag::Unused => 0b0010_0000,
            Flag::Overflow => 0b0100_0000,
            Flag::Negative => 0b1000_0000,
        }
    }
}

/// Whether `flag` is set in the status byte `p`.
pub open spec fn has_flag(p: u8, flag: Flag) -> bool {
    p & flag.mask() == flag.mask()
}

/// The status byte `p` with `flag` switched on or off and every other bit kept.
pub open spec fn with_flag(p: u8, flag: Flag, on: bool) -> u8 {
    if on {
        p | flag.mask()
    } else {
        p & !flag.mask()
    }
}

/// Setting or clearing a flag makes exactly that flag read back as asked.
pub proof fn lemma_flag_written(p: u8, flag: Flag, on: bool)
    ensures
        has_flag(with_flag(p, flag, on), flag) == on,
{
    let m = flag.mask();
    assert(m != 0);
    assert((p | m) & m == m) by (bit_vector);
    assert(m != 0 ==> (p & !m) & m != m) by (bit_vector);
}

/// Setting or clearing one flag leaves every other flag as it was.
pub proof fn lemma_flag_kept(p: u8, flag: Flag, on: bool, other: Flag)
    requires
        other != flag,
    ensures
        has_flag(with_flag(p, flag, on), other) == has_flag(p, other),
{
    let m = flag.mask();
    let o = other.mask();
    assert(m & o == 0) by {
        lemma_masks_disjoint(flag, other);
    }
    assert(m & o == 0 ==> (p | m) & o == p & o) by (bit_vector);
    assert(m & o == 0 ==> (p & !m) & o == p & o) by (bit_vector);
}

/// Two different flags share no bit.
pub proof fn lemma_masks_disjoint(flag: Flag, other: Flag)
    requires
        other != flag,
    ensures
        flag.mask() & other.mask() == 0,
{
    let m = flag.mask();
    let o = other.mask();
    assert((m == 1 || m == 2 || m == 4 || m == 8 || m == 16 || m == 32 || m == 64 || m == 128)
        && (o == 1 || o == 2 || o == 4 || o == 8 || o == 16 || o == 32 || o == 64 || o == 128)
        && m != o ==> m & o == 0) by (bit_vector);
}

/// The two facts on flags for every status byte at once: a flag reads back as
/// it was written, and writing one flag changes no other.
pub proof fn lemma_flags()
    ensures
        forall|p: u8, flag: Flag, on: bool| #[trigger]
            has_flag(with_flag(p, flag, on), flag) == on,
        forall|p: u8, flag: Flag, on: bool, other: Flag|
            other != flag ==> #[trigger] has_flag(with_flag(p, flag, on), other) == has_flag(
                p,
                other,
            ),
{
    assert forall|p: u8, flag: Flag, on: bool| #[trigger]
        has_flag(with_flag(p, flag, on), flag) == on by {
        lemma_flag_written(p, flag, on);
    }
    assert forall|p: u8, flag: Flag, on: bool, other: Flag| other != flag implies #[trigger]
        has_flag(with_flag(p, flag, on), other) == has_flag(p, other) by {
        lemma_flag_kept(p, flag, on, other);
    }
}

/// The status register of the CPU.
#[derive(Clone, Copy, Debug)]
pub struct Status {
    bits: u8,
}

impl View for Status {
    type V = u8;

    /// The register as a byte.
    closed spec fn view(&self) -> u8 {
        self.bits
    }
}

impl Status {
    /// A register with no flag set.
    pub fn empty() -> (status: Status)
        ensures
            status@ == 0,
    {
        Status { bits: 0 }
    }

    /// The register that holds exactly the bits of `bits`. Every bit of a byte
    /// names a flag, so nothing is cut off.
    pub fn from_bits_truncate(bits: u8) -> (status: Status)
        ensures
            status@ == bits,
    {
        Status { bits }
    }

    /// The register as a byte.
    pub fn bits(&self) -> (bits: u8)
        ensures
            bits == self@,
    {
        self.bits
    }

    /// Whether `flag` is set.
    pub fn contains(&self, flag: Flag) -> (set: bool)
        ensures
            set == has_flag(self@, flag),
    {
        let mask = flag.mask();
        self.bits & mask == mask
    }

    /// Sets `flag`.
    pub fn insert(&mut self, flag: Flag)
        ensures
            final(self)@ == with_flag(old(self)@, flag, true),
    {
        self.bits = self.bits | flag.mask();
    }

    /// Clears `flag`.
    pub fn remove(&mut self, flag: Flag)
        ensures
            final(self)@ == with_flag(old(self)@, flag, false),
    {
        self.bits = self.bits & !flag.mask();
    }

    /// Sets `flag` where `on` holds and clears it otherwise.
    pub fn set(&mut self, flag: Flag, on: bool)
        ensures
            final(self)@ == with_flag(old(self)@, flag, on),
    {
        if on {
            self.insert(flag);
        } else {
            self.remove(flag);
        }
    }

    /// A copy of the register with `flag` set in it.
    pub fn with(self, flag: Flag) -> (status: Status)
        ensures
            status@ == with_flag(self@, flag, true),
    {
        Status { bits: self.bits | flag.mask() }
    }
}

} // verus!
