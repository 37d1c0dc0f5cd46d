//! The instruction set: the documented operations of the 6502, the ways in
//! which they find their operand, and the table that maps an opcode byte to
//! both and to the number of cycles that the instruction takes.

use vstd::prelude::*;

verus! {

/// An operation of the processor.
#[derive(Clone, Copy, Debug, PartialEq, Eq, Structural)]
pub enum Instruction {
    /// Add memory and carry to the accumulator.
    ADC,
    /// Bitwise AND of memory into the accumulator.
    AND,
    /// Shift left by one bit.
    ASL,
    /// Branch if carry is clear.
    BCC,
    /// Branch if carry is set.
    BCS,
    /// Branch if zero is set.
    BEQ,
    /// Test bits of memory against the accumulator.
    BIT,
    /// Branch if negative is set.
    BMI,
    /// Branch if zero is clear.
    BNE,
    /// Branch if negative is clear.
    BPL,
    /// Software interrupt.
    BRK,
    /// Branch if overflow is clear.
    BVC,
    /// Branch if overflow is set.
    BVS,
    /// Clear carry.
    CLC,
    /// Clear decimal.
    CLD,
    /// Clear interrupt disable.
    CLI,
    /// Clear overflow.
    CLV,
    /// Compare memory with the accumulator.
    CMP,
    /// Compare memory with X.
    CPX,
    /// Compare memory with Y.
    CPY,
    /// Decrement memory.
    DEC,
    /// Decrement X.
    DEX,
    /// Decrement Y.
    DEY,
    /// Bitwise exclusive OR of memory into the accumulator.
    EOR,
    /// Increment memory.
    INC,
    /// Increment X.
    INX,
    /// Increment Y.
    INY,
    /// Jump.
    JMP,
    /// Jump to a subroutine.
    JSR,
    /// Load the accumulator.
    LDA,
    /// Load X.
    LDX,
    /// Load Y.
    LDY,
    /// Shift right by one bit.
    LSR,
    /// Do nothing.
    NOP,
    /// Bitwise OR of memory into the accumulator.
    ORA,
    /// Push the accumulator.
    PHA,
    /// Push the status register.
    PHP,
    /// Pull the accumulator.
    PLA,
    /// Pull the status register.
    PLP,
    /// Rotate left through carry.
    ROL,
    /// Rotate right through carry.
    ROR,
    /// Return from an interrupt.
    RTI,
    /// Return from a subroutine.
    RTS,
    /// Subtract memory and borrow from the accumulator.
    SBC,
    /// Set carry.
    SEC,
    /// Set decimal.
    SED,
    /// Set interrupt disable.
    SEI,
    /// Store the accumulator.
    STA,
    /// Store X.
    STX,
    /// Store Y.
    STY,
    /// Copy the accumulator to X.
    TAX,
    /// Copy the accumulator to Y.
    TAY,
    /// Copy the stack pointer to X.
    TSX,
    /// Copy X to the accumulator.
    TXA,
    /// Copy X to the stack pointer.
    TXS,
    /// Copy Y to the accumulator.
    TYA,
}

/// The way in which an instruction finds its operand.
#[derive(Clone, Copy, Debug, PartialEq, Eq, Structural)]
pub enum AddressingMode {
    /// No operand.
    Implied,
    /// The operand is the accumulator.
    Accumulator,
    /// The operand is the byte behind the opcode.
    Immediate,
    /// The byte behind the opcode is a signed distance from the next instruction.
    Relative,
    /// The byte behind the opcode is an address in page zero.
    ZeroPage,
    /// An address in page zero, plus X, staying in page zero.
    ZeroPageX,
    /// An address in page zero, plus Y, staying in page zero.
    ZeroPageY,
    /// The two bytes behind the opcode are the address, low byte first.
    Absolute,
    /// A two-byte address plus X.
    AbsoluteX,
    /// A two-byte address plus Y.
    AbsoluteY,
    /// The two bytes behind the opcode are the address of the address.
    Indirect,
    /// A pointer in page zero, found at the operand byte plus X.
    IndirectX,
    /// A pointer in page zero, found at the operand byte; Y is added to what it holds.
    IndirectY,
}

impl AddressingMode {
    /// Number of operand bytes that follow the opcode byte.
    pub open spec fn operand_bytes_spec(self) -> u16 {
        match self {
            AddressingMode::Implied | AddressingMode::Accumulator => 0,
            AddressingMode::Immediate
            | AddressingMode::Relative
            | AddressingMode::ZeroPage
            | AddressingMode::ZeroPageX
            | AddressingMode::ZeroPageY
            | AddressingMode::IndirectX
            | AddressingMode::IndirectY => 1,
            AddressingMode::Absolute
            | AddressingMode::AbsoluteX
            | AddressingMode::AbsoluteY
            | AddressingMode::Indirect => 2,
        }
    }

    /// Number of operand bytes that follow the opcode byte.
    #[verifier::when_used_as_spec(operand_bytes_spec)]
    pub fn operand_bytes(self) -> (count: u16)
        ensures
            count == self.operand_bytes_spec(),
    {
        match self {
            AddressingMode::Implied | AddressingMode::Accumulator => 0,
            AddressingMode::Immediate
            | AddressingMode::Relative
            | AddressingMode::ZeroPage
            | AddressingMode::ZeroPageX
            | AddressingMode::ZeroPageY
            | AddressingMode::IndirectX
            | AddressingMode::IndirectY => 1,
            AddressingMode::Absolute
            | AddressingMode::AbsoluteX
            | AddressingMode::AbsoluteY
            | AddressingMode::Indirect => 2,
        }
    }
}

/// One row of the opcode table.
#[derive(Clone, Copy, Debug, PartialEq, Eq, Structural)]
pub struct Opcode {
    /// The operation.
    pub instruction: Instruction,
    /// How the operation finds its operand.
    pub addressing_mode: AddressingMode,
    /// Number of cycles that the instruction takes at least.
    pub cycles: u8,
}

/// A row of the table, as the table's answer for a documented opcode.
pub open spec fn entry(
    instruction: Instruction,
    addressing_mode: AddressingMode,
    cycles: u8,
) -> Option<Opcode> {
    Some(Opcode { instruction, addressing_mode, cycles })
}

/// The opcode table: the row of each of the 151 documented opcode bytes, and
/// nothing for any other byte.
#[verifier::opaque]
pub open spec fn decoded(byte: u8) -> Option<Opcode> {
    match byte {
        0x00 => entry(Instruction::BRK, AddressingMode::Implied, 7),
        0x01 => entry(Instruction::ORA, AddressingMode::IndirectX, 6),
        0x05 => entry(Instruction::ORA, AddressingMode::ZeroPage, 3),
        0x06 => entry(Instruction::ASL, AddressingMode::ZeroPage, 5),
        0x08 => entry(Instruction::PHP, AddressingMode::Implied, 3),
        0x09 => entry(Instruction::ORA, AddressingMode::Immediate, 2),
        0x0A => entry(Instruction::ASL, AddressingMode::Accumulator, 2),
        0x0D => entry(Instruction::ORA, AddressingMode::Absolute, 4),
        0x0E => entry(Instruction::ASL, AddressingMode::Absolute, 6),
        0x10 => entry(Instruction::BPL, AddressingMode::Relative, 2),
        0x11 => entry(Instruction::ORA, AddressingMode::IndirectY, 5),
        0x15 => entry(Instruction::ORA, AddressingMode::ZeroPageX, 4),
        0x16 => entry(Instruction::ASL, AddressingMode::ZeroPageX, 6),
        0x18 => entry(Instruction::CLC, AddressingMode::Implied, 2),
        0x19 => entry(Instruction::ORA, AddressingMode::AbsoluteY, 4),
        0x1D => entry(Instruction::ORA, AddressingMode::AbsoluteX, 4),
        0x1E => entry(Instruction::ASL, AddressingMode::AbsoluteX, 7),
        0x20 => entry(Instruction::JSR, AddressingMode::Absolute, 6),
        0x21 => entry(Instruction::AND, AddressingMode::IndirectX, 6),
        0x24 => entry(Instruction::BIT, AddressingMode::ZeroPage, 3),
        0x25 => entry(Instruction::AND, AddressingMode::ZeroPage, 3),
        0x26 => entry(Instruction::ROL, AddressingMode::ZeroPage, 5),
        0x28 => entry(Instruction::PLP, AddressingMode::Implied, 4),
        0x29 => entry(Instruction::AND, AddressingMode::Immediate, 2),
        0x2A => entry(Instruction::ROL, AddressingMode::Accumulator, 2),
        0x2C => entry(Instruction::BIT, AddressingMode::Absolute, 4),
        0x2D => entry(Instruction::AND, AddressingMode::Absolute, 4),
        0x2E => entry(Instruction::ROL, AddressingMode::Absolute, 6),
        0x30 => entry(Instruction::BMI, AddressingMode::Relative, 2),
        0x31 => entry(Instruction::AND, AddressingMode::IndirectY, 5),
        0x35 => entry(Instruction::AND, AddressingMode::ZeroPageX, 4),
        0x36 => entry(Instruction::ROL, AddressingMode::ZeroPageX, 6),
        0x38 => entry(Instruction::SEC, AddressingMode::Implied, 2),
        0x39 => entry(Instruction::AND, AddressingMode::AbsoluteY, 4),
        0x3D => entry(Instruction::AND, AddressingMode::AbsoluteX, 4),
        0x3E => entry(Instruction::ROL, AddressingMode::AbsoluteX, 7),
        0x40 => entry(Instruction::RTI, AddressingMode::Implied, 6),
        0x41 => entry(Instruction::EOR, AddressingMode::IndirectX, 6),
        0x45 => entry(Instruction::EOR, AddressingMode::ZeroPage, 3),
        0x46 => entry(Instruction::LSR, AddressingMode::ZeroPage, 5),
        0x48 => entry(Instruction::PHA, AddressingMode::Implied, 3),
        0x49 => entry(Instruction::EOR, AddressingMode::Immediate, 2),
        0x4A => entry(Instruction::LSR, AddressingMode::Accumulator, 2),
        0x4C => entry(Instruction::JMP, AddressingMode::Absolute, 3),
        0x4D => entry(Instruction::EOR, AddressingMode::Absolute, 4),
        0x4E => entry(Instruction::LSR, AddressingMode::Absolute, 6),
        0x50 => entry(Instruction::BVC, AddressingMode::Relative, 2),
        0x51 => entry(Instruction::EOR, AddressingMode::IndirectY, 5),
        0x55 => entry(Instruction::EOR, AddressingMode::ZeroPageX, 4),
        0x56 => entry(Instruction::LSR, AddressingMode::ZeroPageX, 6),
        0x58 => entry(Instruction::CLI, AddressingMode::Implied, 2),
        0x59 => entry(Instruction::EOR, AddressingMode::AbsoluteY, 4),
        0x5D => entry(Instruction::EOR, AddressingMode::AbsoluteX, 4),
        0x5E => entry(Instruction::LSR, AddressingMode::AbsoluteX, 7),
        0x60 => entry(Instruction::RTS, AddressingMode::Implied, 6),
        0x61 => entry(Instruction::ADC, AddressingMode::IndirectX, 6),
        0x65 => entry(Instruction::ADC, AddressingMode::ZeroPage, 3),
        0x66 => entry(Instruction::ROR, AddressingMode::ZeroPage, 5),
        0x68 => entry(Instruction::PLA, AddressingMode::Implied, 4),
        0x69 => entry(Instruction::ADC, AddressingMode::Immediate, 2),
        0x6A => entry(Instruction::ROR, AddressingMode::Accumulator, 2),
        0x6C => entry(Instruction::JMP, AddressingMode::Indirect, 5),
        0x6D => entry(Instruction::ADC, AddressingMode::Absolute, 4),
        0x6E => entry(Instruction::ROR, AddressingMode::Absolute, 6),
        0x70 => entry(Instruction::BVS, AddressingMode::Relative, 2),
        0x71 => entry(Instruction::ADC, AddressingMode::IndirectY, 5),
        0x75 => entry(Instruction::ADC, AddressingMode::ZeroPageX, 4),
        0x76 => entry(Instruction::ROR, AddressingMode::ZeroPageX, 6),
        0x78 => entry(Instruction::SEI, AddressingMode::Implied, 2),
        0x79 => entry(Instruction::ADC, AddressingMode::AbsoluteY, 4),
        0x7D => entry(Instruction::ADC, AddressingMode::AbsoluteX, 4),
        0x7E => entry(Instruction::ROR, AddressingMode::AbsoluteX, 7),
        0x81 => entry(Instruction::STA, AddressingMode::IndirectX, 6),
        0x84 => entry(Instruction::STY, AddressingMode::ZeroPage, 3),
        0x85 => entry(Instruction::STA, AddressingMode::ZeroPage, 3),
        0x86 => entry(Instruction::STX, AddressingMode::ZeroPage, 3),
        0x88 => entry(Instruction::DEY, AddressingMode::Implied, 2),
        0x8A => entry(Instruction::TXA, AddressingMode::Implied, 2),
        0x8C => entry(Instruction::STY, AddressingMode::Absolute, 4),
        0x8D => entry(Instruction::STA, AddressingMode::Absolute, 4),
        0x8E => entry(Instruction::STX, AddressingMode::Absolute, 4),
        0x90 => entry(Instruction::BCC, AddressingMode::Relative, 2),
        0x91 => entry(Instruction::STA, AddressingMode::IndirectY, 6),
        0x94 => entry(Instruction::STY, AddressingMode::ZeroPageX, 4),
        0x95 => entry(Instruction::STA, AddressingMode::ZeroPageX, 4),
        0x96 => entry(Instruction::STX, AddressingMode::ZeroPageY, 4),
        0x98 => entry(Instruction::TYA, AddressingMode::Implied, 2),
        0x99 => entry(Instruction::STA, AddressingMode::AbsoluteY, 5),
        0x9A => entry(Instruction::TXS, AddressingMode::Implied, 2),
        0x9D => entry(Instruction::STA, AddressingMode::AbsoluteX, 5),
        0xA0 => entry(Instruction::LDY, AddressingMode::Immediate, 2),
        0xA1 => entry(Instruction::LDA, AddressingMode::IndirectX, 6),
        0xA2 => entry(Instruction::LDX, AddressingMode::Immediate, 2),
        0xA4 => entry(Instruction::LDY, AddressingMode::ZeroPage, 3),
        0xA5 => entry(Instruction::LDA, AddressingMode::ZeroPage, 3),
        0xA6 => entry(Instruction::LDX, AddressingMode::ZeroPage, 3),
        0xA8 => entry(Instruction::TAY, AddressingMode::Implied, 2),
        0xA9 => entry(Instruction::LDA, AddressingMode::Immediate, 2),
        0xAA => entry(Instruction::TAX, AddressingMode::Implied, 2),
        0xAC => entry(Instruction::LDY, AddressingMode::Absolute, 4),
        0xAD => entry(Instruction::LDA, AddressingMode::Absolute, 4),
        0xAE => entry(Instruction::LDX, AddressingMode::Absolute, 4),
        0xB0 => entry(Instruction::BCS, AddressingMode::Relative, 2),
        0xB1 => entry(Instruction::LDA, AddressingMode::IndirectY, 5),
        0xB4 => entry(Instruction::LDY, AddressingMode::ZeroPageX, 4),
        0xB5 => entry(Instruction::LDA, AddressingMode::ZeroPageX, 4),
        0xB6 => entry(Instruction::LDX, AddressingMode::ZeroPageY, 4),
        0xB8 => entry(Instruction::CLV, AddressingMode::Implied, 2),
        0xB9 => entry(Instruction::LDA, AddressingMode::AbsoluteY, 4),
        0xBA => entry(Instruction::TSX, AddressingMode::Implied, 2),
        0xBC => entry(Instruction::LDY, AddressingMode::AbsoluteX, 4),
        0xBD => entry(Instruction::LDA, AddressingMode::AbsoluteX, 4),
        0xBE => entry(Instruction::LDX, AddressingMode::AbsoluteY, 4),
        0xC0 => entry(Instruction::CPY, AddressingMode::Immediate, 2),
        0xC1 => entry(Instruction::CMP, AddressingMode::IndirectX, 6),
        0xC4 => entry(Instruction::CPY, AddressingMode::ZeroPage, 3),
        0xC5 => entry(Instruction::CMP, AddressingMode::ZeroPage, 3),
        0xC6 => entry(Instruction::DEC, AddressingMode::ZeroPage, 5),
        0xC8 => entry(Instruction::INY, AddressingMode::Implied, 2),
        0xC9 => entry(Instruction::CMP, AddressingMode::Immediate, 2),
        0xCA => entry(Instruction::DEX, AddressingMode::Implied, 2),
        0xCC => entry(Instruction::CPY, AddressingMode::Absolute, 4),
        0xCD => entry(Instruction::CMP, AddressingMode::Absolute, 4),
        0xCE => entry(Instruction::DEC, AddressingMode::Absolute, 6),
        0xD0 => entry(Instruction::BNE, AddressingMode::Relative, 2),
        0xD1 => entry(Instruction::CMP, AddressingMode::IndirectY, 5),
        0xD5 => entry(Instruction::CMP, AddressingMode::ZeroPageX, 4),
        0xD6 => entry(Instruction::DEC, AddressingMode::ZeroPageX, 6),
        0xD8 => entry(Instruction::CLD, AddressingMode::Implied, 2),
        0xD9 => entry(Instruction::CMP, AddressingMode::AbsoluteY, 4),
        0xDD => entry(Instruction::CMP, AddressingMode::AbsoluteX, 4),
        0xDE => entry(Instruction::DEC, AddressingMode::AbsoluteX, 7),
        0xE0 => entry(Instruction::CPX, AddressingMode::Immediate, 2),
        0xE1 => entry(Instruction::SBC, AddressingMode::IndirectX, 6),
        0xE4 => entry(Instruction::CPX, AddressingMode::ZeroPage, 3),
        0xE5 => entry(Instruction::SBC, AddressingMode::ZeroPage, 3),
        0xE6 => entry(Instruction::INC, AddressingMode::ZeroPage, 5),
        0xE8 => entry(Instruction::INX, AddressingMode::Implied, 2),
        0xE9 => entry(Instruction::SBC, AddressingMode::Immediate, 2),
        0xEA => entry(Instruction::NOP, AddressingMode::Implied, 2),
        0xEC => entry(Instruction::CPX, AddressingMode::Absolute, 4),
        0xED => entry(Instruction::SBC, AddressingMode::Absolute, 4),
        0xEE => entry(Instruction::INC, AddressingMode::Absolute, 6),
        0xF0 => entry(Instruction::BEQ, AddressingMode::Relative, 2),
        0xF1 => entry(Instruction::SBC, AddressingMode::IndirectY, 5),
        0xF5 => entry(Instruction::SBC, AddressingMode::ZeroPageX, 4),
        0xF6 => entry(Instruction::INC, AddressingMode::ZeroPageX, 6),
        0xF8 => entry(Instruction::SED, AddressingMode::Implied, 2),
        0xF9 => entry(Instruction::SBC, AddressingMode::AbsoluteY, 4),
        0xFD => entry(Instruction::SBC, AddressingMode::AbsoluteX, 4),
        0xFE => entry(Instruction::INC, AddressingMode::AbsoluteX, 7),
        _ => None,
    }
}

impl Opcode {
    /// The row with the given fields.
    pub fn new(instruction: Instruction, addressing_mode: AddressingMode, cycles: u8) -> (opcode:
        Self)
        ensures
            opcode == (Opcode { instruction, addressing_mode, cycles }),
    {
        Self { instruction, addressing_mode, cycles }
    }

    /// Looks `byte` up in the opcode table.
    pub fn decode(byte: u8) -> (opcode: Option<Opcode>)
        ensures
            opcode == decoded(byte),
    {
        proof {
            reveal(decoded);
        }
        match byte {
            0x00 => Some(Opcode::new(Instruction::BRK, AddressingMode::Implied, 7)),
            0x01 => Some(Opcode::new(Instruction::ORA, AddressingMode::IndirectX, 6)),
            0x05 => Some(Opcode::new(Instruction::ORA, AddressingMode::ZeroPage, 3)),
            0x06 => Some(Opcode::new(Instruction::ASL, AddressingMode::ZeroPage, 5)),
            0x08 => Some(Opcode::new(Instruction::PHP, AddressingMode::Implied, 3)),
            0x09 => Some(Opcode::new(Instruction::ORA, AddressingMode::Immediate, 2)),
            0x0A => Some(Opcode::new(Instruction::ASL, AddressingMode::Accumulator, 2)),
            0x0D => Some(Opcode::new(Instruction::ORA, AddressingMode::Absolute, 4)),
            0x0E => Some(Opcode::new(Instruction::ASL, AddressingMode::Absolute, 6)),
            0x10 => Some(Opcode::new(Instruction::BPL, AddressingMode::Relative, 2)),
            0x11 => Some(Opcode::new(Instruction::ORA, AddressingMode::IndirectY, 5)),
            0x15 => Some(Opcode::new(Instruction::ORA, AddressingMode::ZeroPageX, 4)),
            0x16 => Some(Opcode::new(Instruction::ASL, AddressingMode::ZeroPageX, 6)),
            0x18 => Some(Opcode::new(Instruction::CLC, AddressingMode::Implied, 2)),
            0x19 => Some(Opcode::new(Instruction::ORA, AddressingMode::AbsoluteY, 4)),
            0x1D => Some(Opcode::new(Instruction::ORA, AddressingMode::AbsoluteX, 4)),
            0x1E => Some(Opcode::new(Instruction::ASL, AddressingMode::AbsoluteX, 7)),
            0x20 => Some(Opcode::new(Instruction::JSR, AddressingMode::Absolute, 6)),
            0x21 => Some(Opcode::new(Instruction::AND, AddressingMode::IndirectX, 6)),
            0x24 => Some(Opcode::new(Instruction::BIT, AddressingMode::ZeroPage, 3)),
            0x25 => Some(Opcode::new(Instruction::AND, AddressingMode::ZeroPage, 3)),
            0x26 => Some(Opcode::new(Instruction::ROL, AddressingMode::ZeroPage, 5)),
            0x28 => Some(Opcode::new(Instruction::PLP, AddressingMode::Implied, 4)),
            0x29 => Some(Opcode::new(Instruction::AND, AddressingMode::Immediate, 2)),
            0x2A => Some(Opcode::new(Instruction::ROL, AddressingMode::Accumulator, 2)),
            0x2C => Some(Opcode::new(Instruction::BIT, AddressingMode::Absolute, 4)),
            0x2D => Some(Opcode::new(Instruction::AND, AddressingMode::Absolute, 4)),
            0x2E => Some(Opcode::new(Instruction::ROL, AddressingMode::Absolute, 6)),
            0x30 => Some(Opcode::new(Instruction::BMI, AddressingMode::Relative, 2)),
            0x31 => Some(Opcode::new(Instruction::AND, AddressingMode::IndirectY, 5)),
            0x35 => Some(Opcode::new(Instruction::AND, AddressingMode::ZeroPageX, 4)),
            0x36 => Some(Opcode::new(Instruction::ROL, AddressingMode::ZeroPageX, 6)),
            0x38 => Some(Opcode::new(Instruction::SEC, AddressingMode::Implied, 2)),
            0x39 => Some(Opcode::new(Instruction::AND, AddressingMode::AbsoluteY, 4)),
            0x3D => Some(Opcode::new(Instruction::AND, AddressingMode::AbsoluteX, 4)),
            0x3E => Some(Opcode::new(Instruction::ROL, AddressingMode::AbsoluteX, 7)),
            0x40 => Some(Opcode::new(Instruction::RTI, AddressingMode::Implied, 6)),
            0x41 => Some(Opcode::new(Instruction::EOR, AddressingMode::IndirectX, 6)),
            0x45 => Some(Opcode::new(Instruction::EOR, AddressingMode::ZeroPage, 3)),
            0x46 => Some(Opcode::new(Instruction::LSR, AddressingMode::ZeroPage, 5)),
            0x48 => Some(Opcode::new(Instruction::PHA, AddressingMode::Implied, 3)),
            0x49 => Some(Opcode::new(Instruction::EOR, AddressingMode::Immediate, 2)),
            0x4A => Some(Opcode::new(Instruction::LSR, AddressingMode::Accumulator, 2)),
            0x4C => Some(Opcode::new(Instruction::JMP, AddressingMode::Absolute, 3)),
            0x4D => Some(Opcode::new(Instruction::EOR, AddressingMode::Absolute, 4)),
            0x4E => Some(Opcode::new(Instruction::LSR, AddressingMode::Absolute, 6)),
            0x50 => Some(Opcode::new(Instruction::BVC, AddressingMode::Relative, 2)),
            0x51 => Some(Opcode::new(Instruction::EOR, AddressingMode::IndirectY, 5)),
            0x55 => Some(Opcode::new(Instruction::EOR, AddressingMode::ZeroPageX, 4)),
            0x56 => Some(Opcode::new(Instruction::LSR, AddressingMode::ZeroPageX, 6)),
            0x58 => Some(Opcode::new(Instruction::CLI, AddressingMode::Implied, 2)),
            0x59 => Some(Opcode::new(Instruction::EOR, AddressingMode::AbsoluteY, 4)),
            0x5D => Some(Opcode::new(Instruction::EOR, AddressingMode::AbsoluteX, 4)),
            0x5E => Some(Opcode::new(Instruction::LSR, AddressingMode::AbsoluteX, 7)),
            0x60 => Some(Opcode::new(Instruction::RTS, AddressingMode::Implied, 6)),
            0x61 => Some(Opcode::new(Instruction::ADC, AddressingMode::IndirectX, 6)),
            0x65 => Some(Opcode::new(Instruction::ADC, AddressingMode::ZeroPage, 3)),
            0x66 => Some(Opcode::new(Instruction::ROR, AddressingMode::ZeroPage, 5)),
            0x68 => Some(Opcode::new(Instruction::PLA, AddressingMode::Implied, 4)),
            0x69 => Some(Opcode::new(Instruction::ADC, AddressingMode::Immediate, 2)),
            0x6A => Some(Opcode::new(Instruction::ROR, AddressingMode::Accumulator, 2)),
            0x6C => Some(Opcode::new(Instruction::JMP, AddressingMode::Indirect, 5)),
            0x6D => Some(Opcode::new(Instruction::ADC, AddressingMode::Absolute, 4)),
            0x6E => Some(Opcode::new(Instruction::ROR, AddressingMode::Absolute, 6)),
            0x70 => Some(Opcode::new(Instruction::BVS, AddressingMode::Relative, 2)),
            0x71 => Some(Opcode::new(Instruction::ADC, AddressingMode::IndirectY, 5)),
            0x75 => Some(Opcode::new(Instruction::ADC, AddressingMode::ZeroPageX, 4)),
            0x76 => Some(Opcode::new(Instruction::ROR, AddressingMode::ZeroPageX, 6)),
            0x78 => Some(Opcode::new(Instruction::SEI, AddressingMode::Implied, 2)),
            0x79 => Some(Opcode::new(Instruction::ADC, AddressingMode::AbsoluteY, 4)),
            0x7D => Some(Opcode::new(Instruction::ADC, AddressingMode::AbsoluteX, 4)),
            0x7E => Some(Opcode::new(Instruction::ROR, AddressingMode::AbsoluteX, 7)),
            0x81 => Some(Opcode::new(Instruction::STA, AddressingMode::IndirectX, 6)),
            0x84 => Some(Opcode::new(Instruction::STY, AddressingMode::ZeroPage, 3)),
            0x85 => Some(Opcode::new(Instruction::STA, AddressingMode::ZeroPage, 3)),
            0x86 => Some(Opcode::new(Instruction::STX, AddressingMode::ZeroPage, 3)),
            0x88 => Some(Opcode::new(Instruction::DEY, AddressingMode::Implied, 2)),
            0x8A => Some(Opcode::new(Instruction::TXA, AddressingMode::Implied, 2)),
            0x8C => Some(Opcode::new(Instruction::STY, AddressingMode::Absolute, 4)),
            0x8D => Some(Opcode::new(Instruction::STA, AddressingMode::Absolute, 4)),
            0x8E => Some(Opcode::new(Instruction::STX, AddressingMode::Absolute, 4)),
            0x90 => Some(Opcode::new(Instruction::BCC, AddressingMode::Relative, 2)),
            0x91 => Some(Opcode::new(Instruction::STA, AddressingMode::IndirectY, 6)),
            0x94 => Some(Opcode::new(Instruction::STY, AddressingMode::ZeroPageX, 4)),
            0x95 => Some(Opcode::new(Instruction::STA, AddressingMode::ZeroPageX, 4)),
            0x96 => Some(Opcode::new(Instruction::STX, AddressingMode::ZeroPageY, 4)),
            0x98 => Some(Opcode::new(Instruction::TYA, AddressingMode::Implied, 2)),
            0x99 => Some(Opcode::new(Instruction::STA, AddressingMode::AbsoluteY, 5)),
            0x9A => Some(Opcode::new(Instruction::TXS, AddressingMode::Implied, 2)),
            0x9D => Some(Opcode::new(Instruction::STA, AddressingMode::AbsoluteX, 5)),
            0xA0 => Some(Opcode::new(Instruction::LDY, AddressingMode::Immediate, 2)),
            0xA1 => Some(Opcode::new(Instruction::LDA, AddressingMode::IndirectX, 6)),
            0xA2 => Some(Opcode::new(Instruction::LDX, AddressingMode::Immediate, 2)),
            0xA4 => Some(Opcode::new(Instruction::LDY, AddressingMode::ZeroPage, 3)),
            0xA5 => Some(Opcode::new(Instruction::LDA, AddressingMode::ZeroPage, 3)),
            0xA6 => Some(Opcode::new(Instruction::LDX, AddressingMode::ZeroPage, 3)),
            0xA8 => Some(Opcode::new(Instruction::TAY, AddressingMode::Implied, 2)),
            0xA9 => Some(Opcode::new(Instruction::LDA, AddressingMode::Immediate, 2)),
            0xAA => Some(Opcode::new(Instruction::TAX, AddressingMode::Implied, 2)),
            0xAC => Some(Opcode::new(Instruction::LDY, AddressingMode::Absolute, 4)),
            0xAD => Some(Opcode::new(Instruction::LDA, AddressingMode::Absolute, 4)),
            0xAE => Some(Opcode::new(Instruction::LDX, AddressingMode::Absolute, 4)),
            0xB0 => Some(Opcode::new(Instruction::BCS, AddressingMode::Relative, 2)),
            0xB1 => Some(Opcode::new(Instruction::LDA, AddressingMode::IndirectY, 5)),
            0xB4 => Some(Opcode::new(Instruction::LDY, AddressingMode::ZeroPageX, 4)),
            0xB5 => Some(Opcode::new(Instruction::LDA, AddressingMode::ZeroPageX, 4)),
            0xB6 => Some(Opcode::new(Instruction::LDX, AddressingMode::ZeroPageY, 4)),
            0xB8 => Some(Opcode::new(Instruction::CLV, AddressingMode::Implied, 2)),
            0xB9 => Some(Opcode::new(Instruction::LDA, AddressingMode::AbsoluteY, 4)),
            0xBA => Some(Opcode::new(Instruction::TSX, AddressingMode::Implied, 2)),
            0xBC => Some(Opcode::new(Instruction::LDY, AddressingMode::AbsoluteX, 4)),
            0xBD => Some(Opcode::new(Instruction::LDA, AddressingMode::AbsoluteX, 4)),
            0xBE => Some(Opcode::new(Instruction::LDX, AddressingMode::AbsoluteY, 4)),
            0xC0 => Some(Opcode::new(Instruction::CPY, AddressingMode::Immediate, 2)),
            0xC1 => Some(Opcode::new(Instruction::CMP, AddressingMode::IndirectX, 6)),
            0xC4 => Some(Opcode::new(Instruction::CPY, AddressingMode::ZeroPage, 3)),
            0xC5 => Some(Opcode::new(Instruction::CMP, AddressingMode::ZeroPage, 3)),
            0xC6 => Some(Opcode::new(Instruction::DEC, AddressingMode::ZeroPage, 5)),
            0xC8 => Some(Opcode::new(Instruction::INY, AddressingMode::Implied, 2)),
            0xC9 => Some(Opcode::new(Instruction::CMP, AddressingMode::Immediate, 2)),
            0xCA => Some(Opcode::new(Instruction::DEX, AddressingMode::Implied, 2)),
            0xCC => Some(Opcode::new(Instruction::CPY, AddressingMode::Absolute, 4)),
            0xCD => Some(Opcode::new(Instruction::CMP, AddressingMode::Absolute, 4)),
            0xCE => Some(Opcode::new(Instruction::DEC, AddressingMode::Absolute, 6)),
            0xD0 => Some(Opcode::new(Instruction::BNE, AddressingMode::Relative, 2)),
            0xD1 => Some(Opcode::new(Instruction::CMP, AddressingMode::IndirectY, 5)),
            0xD5 => Some(Opcode::new(Instruction::CMP, AddressingMode::ZeroPageX, 4)),
            0xD6 => Some(Opcode::new(Instruction::DEC, AddressingMode::ZeroPageX, 6)),
            0xD8 => Some(Opcode::new(Instruction::CLD, AddressingMode::Implied, 2)),
            0xD9 => Some(Opcode::new(Instruction::CMP, AddressingMode::AbsoluteY, 4)),
            0xDD => Some(Opcode::new(Instruction::CMP, AddressingMode::AbsoluteX, 4)),
            0xDE => Some(Opcode::new(Instruction::DEC, AddressingMode::AbsoluteX, 7)),
            0xE0 => Some(Opcode::new(Instruction::CPX, AddressingMode::Immediate, 2)),
            0xE1 => Some(Opcode::new(Instruction::SBC, AddressingMode::IndirectX, 6)),
            0xE4 => Some(Opcode::new(Instruction::CPX, AddressingMode::ZeroPage, 3)),
            0xE5 => Some(Opcode::new(Instruction::SBC, AddressingMode::ZeroPage, 3)),
            0xE6 => Some(Opcode::new(Instruction::INC, AddressingMode::ZeroPage, 5)),
            0xE8 => Some(Opcode::new(Instruction::INX, AddressingMode::Implied, 2)),
            0xE9 => Some(Opcode::new(Instruction::SBC, AddressingMode::Immediate, 2)),
            0xEA => Some(Opcode::new(Instruction::NOP, AddressingMode::Implied, 2)),
            0xEC => Some(Opcode::new(Instruction::CPX, AddressingMode::Absolute, 4)),
            0xED => Some(Opcode::new(Instruction::SBC, AddressingMode::Absolute, 4)),
            0xEE => Some(Opcode::new(Instruction::INC, AddressingMode::Absolute, 6)),
            0xF0 => Some(Opcode::new(Instruction::BEQ, AddressingMode::Relative, 2)),
            0xF1 => Some(Opcode::new(Instruction::SBC, AddressingMode::IndirectY, 5)),
            0xF5 => Some(Opcode::new(Instruction::SBC, AddressingMode::ZeroPageX, 4)),
            0xF6 => Some(Opcode::new(Instruction::INC, AddressingMode::ZeroPageX, 6)),
            0xF8 => Some(Opcode::new(Instruction::SED, AddressingMode::Implied, 2)),
            0xF9 => Some(Opcode::new(Instruction::SBC, AddressingMode::AbsoluteY, 4)),
            0xFD => Some(Opcode::new(Instruction::SBC, AddressingMode::AbsoluteX, 4)),
            0xFE => Some(Opcode::new(Instruction::INC, AddressingMode::AbsoluteX, 7)),
            _ => None,
        }
    }

    /// Number of bytes that the instruction occupies: the opcode byte and its
    /// operand bytes.
    pub open spec fn length(self) -> int {
        1 + self.addressing_mode.operand_bytes()
    }
}

/// Every row of the table takes between two and seven cycles.
pub proof fn lemma_cycles_in_range(byte: u8)
    ensures
        decoded(byte) matches Some(opcode) ==> 2 <= opcode.cycles <= 7,
{
    reveal(decoded);
}

} // verus!
