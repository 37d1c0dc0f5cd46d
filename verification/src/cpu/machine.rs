//! The processor as a mathematical machine: its state as a value, and each
//! thing that it can do as a function from the state before to the state
//! after.

use crate::bus::cpu_bus::BusView;
use crate::bus::cpu_bus::IRQ_VECTOR_ADDRESS_HI;
use crate::bus::cpu_bus::IRQ_VECTOR_ADDRESS_LO;
use crate::bus::cpu_bus::NMI_VECTOR_ADDRESS_HI;
use crate::bus::cpu_bus::NMI_VECTOR_ADDRESS_LO;
use crate::bus::cpu_bus::RESET_VECTOR_ADDRESS_HI;
use crate::bus::cpu_bus::RESET_VECTOR_ADDRESS_LO;
use crate::cpu::arith::has_bit6;
use crate::cpu::arith::high_byte;
use crate::cpu::arith::is_negative;
use crate::cpu::arith::is_odd;
use crate::cpu::arith::low_byte;
use crate::cpu::arith::pages_differ;
use crate::cpu::arith::signed;
use crate::cpu::arith::word;
use crate::cpu::arith::wrap16;
use crate::cpu::arith::wrap8;
use crate::instructions::decoded;
use crate::instructions::AddressingMode;
use crate::instructions::Instruction;
use crate::instructions::Opcode;
use crate::status::has_flag;
use crate::status::with_flag;
use crate::status::Flag;
use vstd::prelude::*;

verus! {

/// Value of the stack pointer after power-on and after a reset.
pub const STACK_POINTER_INITIAL_OFFSET: u8 = 0xFD;

/// First address of the page that holds the stack.
pub const STACK_POINTER_ADDRESS: u16 = 0x0100;

/// Number of cycles that a reset takes.
pub const RESET_CYCLES: u8 = 8;

/// Number of cycles that entering an interrupt takes.
pub const INTERRUPT_CYCLES: u8 = 7;

/// The status byte as it is pushed by an instruction: with the break and the
/// unused bit on.
pub open spec fn pushed_status(p: u8) -> u8 {
    with_flag(with_flag(p, Flag::Break, true), Flag::Unused, true)
}

/// The status byte as it is taken back from the stack: with the break bit
/// off and the unused bit on.
pub open spec fn pulled_status(p: u8) -> u8 {
    with_flag(with_flag(p, Flag::Break, false), Flag::Unused, true)
}

/// The state of the processor and of what it reaches through its bus.
pub struct Machine {
    /// Accumulator.
    pub a: u8,
    /// Index register X.
    pub x: u8,
    /// Index register Y.
    pub y: u8,
    /// Stack pointer: the low byte of an address in page one.
    pub sp: u8,
    /// Program counter.
    pub pc: u16,
    /// Status byte.
    pub p: u8,
    /// Cycles that the instruction in flight still takes.
    pub cycles: u8,
    /// Address of the operand of the instruction in flight.
    pub absolute_address: u16,
    /// Distance of the branch in flight.
    pub relative_address: i16,
    /// Whether indexing the operand's address left the page of its base.
    pub page_crossed: bool,
    /// RAM and cartridge.
    pub bus: BusView,
}

impl Machine {
    /// The state from which the processor can run: every address that it may
    /// touch has a cell behind it.
    pub open spec fn wf(self) -> bool {
        self.bus.complete()
    }

    // ---------------------------------------------------------------
    // Flags
    // ---------------------------------------------------------------
    /// Whether `flag` is set.
    pub open spec fn flag(self, flag: Flag) -> bool {
        has_flag(self.p, flag)
    }

    /// The carry flag as a number.
    pub open spec fn carry(self) -> int {
        if self.flag(Flag::Carry) {
            1
        } else {
            0
        }
    }

    /// The state with `flag` switched on or off.
    pub open spec fn set(self, flag: Flag, on: bool) -> Machine {
        Machine { p: with_flag(self.p, flag, on), ..self }
    }

    /// The state with the zero and negative flags taken from `value`: zero is
    /// set iff `value` is zero, negative iff its bit 7 is set.
    pub open spec fn zn(self, value: u8) -> Machine {
        self.set(Flag::Zero, value == 0).set(Flag::Negative, is_negative(value))
    }

    // ---------------------------------------------------------------
    // Memory and stack
    // ---------------------------------------------------------------
    /// The byte at the operand's address.
    pub open spec fn operand(self) -> u8 {
        self.bus.peek(self.absolute_address)
    }

    /// The state after `value` has been written to the operand's address.
    pub open spec fn stored(self, value: u8) -> Machine {
        Machine { bus: self.bus.poke(self.absolute_address, value), ..self }
    }

    /// The address that the stack pointer points to.
    pub open spec fn stack_address(self) -> u16 {
        (STACK_POINTER_ADDRESS + self.sp) as u16
    }

    /// The state after a push of `value`: the byte is written where the stack
    /// pointer points, then the pointer moves down by one, from `0x00` to
    /// `0xFF`.
    pub open spec fn pushed(self, value: u8) -> Machine {
        Machine {
            bus: self.bus.poke(self.stack_address(), value),
            sp: wrap8(self.sp - 1),
            ..self
        }
    }

    /// The state after a pull: the stack pointer has moved up by one, from
    /// `0xFF` to `0x00`. The byte pulled is the `top` of the state after.
    pub open spec fn pulled(self) -> Machine {
        Machine { sp: wrap8(self.sp + 1), ..self }
    }

    /// The byte where the stack pointer points.
    pub open spec fn top(self) -> u8 {
        self.bus.peek(self.stack_address())
    }

    /// The state after the word `value` has been pushed, high byte first.
    pub open spec fn pushed_word(self, value: u16) -> Machine {
        self.pushed(high_byte(value)).pushed(low_byte(value))
    }

    /// The word that two pulls give, low byte first.
    pub open spec fn top_word(self) -> u16 {
        word(self.pulled().pulled().top(), self.pulled().top())
    }

    /// The word at `lo` and `hi`.
    pub open spec fn vector(self, lo: u16, hi: u16) -> u16 {
        word(self.bus.peek(hi), self.bus.peek(lo))
    }

    // ---------------------------------------------------------------
    // Addressing
    // ---------------------------------------------------------------
    /// The byte at `offset` behind the program counter.
    pub open spec fn fetch(self, offset: int) -> u8 {
        self.bus.peek(wrap16(self.pc + offset))
    }

    /// The word that the two operand bytes spell, low byte first.
    pub open spec fn operand_word(self) -> u16 {
        word(self.fetch(1), self.fetch(0))
    }

    /// The word that page zero holds at `pointer`, low byte first; the high
    /// byte of a pointer at `0xFF` is at `0x00`.
    pub open spec fn zero_page_word(self, pointer: u8) -> u16 {
        word(self.bus.peek(wrap8(pointer + 1) as u16), self.bus.peek(pointer as u16))
    }

    /// The address that indexing starts from, for the modes that add an index
    /// register to a 16-bit base.
    pub open spec fn index_base(self, mode: AddressingMode) -> u16 {
        match mode {
            AddressingMode::IndirectY => self.zero_page_word(self.fetch(0)),
            _ => self.operand_word(),
        }
    }

    /// The operand's address under `mode`, with the program counter at the
    /// first operand byte. Modes without an operand in memory keep the
    /// address that is there.
    #[verifier::opaque]
    pub open spec fn effective_address(self, mode: AddressingMode) -> u16 {
        match mode {
            AddressingMode::Implied | AddressingMode::Accumulator | AddressingMode::Relative =>
                self.absolute_address,
            AddressingMode::Immediate => self.pc,
            AddressingMode::ZeroPage => self.fetch(0) as u16,
            AddressingMode::ZeroPageX => wrap8(self.fetch(0) + self.x) as u16,
            AddressingMode::ZeroPageY => wrap8(self.fetch(0) + self.y) as u16,
            AddressingMode::Absolute => self.operand_word(),
            AddressingMode::AbsoluteX => wrap16(self.operand_word() + self.x),
            AddressingMode::AbsoluteY => wrap16(self.operand_word() + self.y),
            AddressingMode::Indirect => word(
                self.bus.peek(word(self.fetch(1), wrap8(self.fetch(0) + 1))),
                self.bus.peek(self.operand_word()),
            ),
            AddressingMode::IndirectX => self.zero_page_word(wrap8(self.fetch(0) + self.x)),
            AddressingMode::IndirectY => wrap16(self.index_base(mode) + self.y),
        }
    }

    /// Whether adding the index register took the operand's address out of
    /// the page of its base.
    pub open spec fn crosses_page(self, mode: AddressingMode) -> bool {
        match mode {
            AddressingMode::AbsoluteX | AddressingMode::AbsoluteY | AddressingMode::IndirectY =>
                pages_differ(self.index_base(mode), self.effective_address(mode)),
            _ => false,
        }
    }

    /// The state after the operand has been found under `mode`: the address
    /// (for a branch, the distance) is noted, and the program counter stands
    /// behind the operand bytes.
    pub open spec fn addressed(self, mode: AddressingMode) -> Machine {
        Machine {
            absolute_address: self.effective_address(mode),
            relative_address: if mode == AddressingMode::Relative {
                signed(self.fetch(0))
            } else {
                self.relative_address
            },
            page_crossed: self.crosses_page(mode),
            pc: wrap16(self.pc + mode.operand_bytes()),
            ..self
        }
    }

    // ---------------------------------------------------------------
    // Cycle accounting
    // ---------------------------------------------------------------
    /// The state with one more cycle to go.
    pub open spec fn delayed(self) -> Machine {
        Machine { cycles: wrap8(self.cycles + 1), ..self }
    }

    /// The state after an instruction that reads its operand has paid for a
    /// page crossing, if there was one.
    pub open spec fn page_cross_paid(self) -> Machine {
        if self.page_crossed {
            self.delayed()
        } else {
            self
        }
    }

    // ---------------------------------------------------------------
    // Instructions
    // ---------------------------------------------------------------
    /// Load: the operand goes to the accumulator.
    pub open spec fn lda(self) -> Machine {
        let value = self.operand();
        Machine { a: value, ..self }.zn(value).page_cross_paid()
    }

    /// Load: the operand goes to X.
    pub open spec fn ldx(self) -> Machine {
        let value = self.operand();
        Machine { x: value, ..self }.zn(value).page_cross_paid()
    }

    /// Load: the operand goes to Y.
    pub open spec fn ldy(self) -> Machine {
        let value = self.operand();
        Machine { y: value, ..self }.zn(value).page_cross_paid()
    }

    /// The state with `value` in the accumulator and the zero and negative
    /// flags taken from it.
    pub open spec fn a_is(self, value: u8) -> Machine {
        Machine { a: value, ..self }.zn(value)
    }

    /// The state with `value` in X and the zero and negative flags taken
    /// from it.
    pub open spec fn x_is(self, value: u8) -> Machine {
        Machine { x: value, ..self }.zn(value)
    }

    /// The state with `value` in Y and the zero and negative flags taken
    /// from it.
    pub open spec fn y_is(self, value: u8) -> Machine {
        Machine { y: value, ..self }.zn(value)
    }

    /// The state with `value` at the operand's address and the zero and
    /// negative flags taken from it.
    pub open spec fn memory_is(self, value: u8) -> Machine {
        self.stored(value).zn(value)
    }

    /// Add with carry: `A + M + C` in nine bits. The low eight go to the
    /// accumulator and the ninth to carry; overflow is set iff the two
    /// summands have the same sign and the result has the other.
    pub open spec fn adc(self) -> Machine {
        let value = self.operand();
        let sum = self.a + value + self.carry();
        let result = wrap8(sum);
        self.set(Flag::Carry, sum > 0xFF).set(
            Flag::Overflow,
            is_negative(self.a) == is_negative(value) && is_negative(self.a) != is_negative(
                result,
            ),
        ).a_is(result).page_cross_paid()
    }

    /// Subtract with borrow: `A - M - (1 - C)`. The low eight bits go to the
    /// accumulator; carry is set iff nothing was borrowed; overflow is set
    /// iff the operands differ in sign and the result has not the sign of
    /// the accumulator.
    pub open spec fn sbc(self) -> Machine {
        let value = self.operand();
        let difference = self.a - value - (1 - self.carry());
        let result = wrap8(difference);
        self.set(Flag::Carry, difference >= 0).set(
            Flag::Overflow,
            is_negative(self.a) != is_negative(value) && is_negative(self.a) != is_negative(
                result,
            ),
        ).a_is(result).page_cross_paid()
    }

    /// Compare `register` with the operand: carry is set iff the register is
    /// not below the operand, zero and negative come from their difference.
    pub open spec fn compared(self, register: u8) -> Machine {
        let value = self.operand();
        self.set(Flag::Carry, register >= value).zn(wrap8(register - value)).page_cross_paid()
    }

    /// The byte that a shift or rotation works on: the accumulator or the
    /// operand in memory.
    pub open spec fn target(self, mode: AddressingMode) -> u8 {
        if mode == AddressingMode::Accumulator {
            self.a
        } else {
            self.operand()
        }
    }

    /// The state after `value` has been put where a shift or rotation found
    /// its byte.
    pub open spec fn target_is(self, mode: AddressingMode, value: u8) -> Machine {
        if mode == AddressingMode::Accumulator {
            Machine { a: value, ..self }
        } else {
            self.stored(value)
        }
    }

    /// The state after a shift or rotation that moved `out` into carry and
    /// left `result`.
    pub open spec fn shifted(self, mode: AddressingMode, out: bool, result: u8) -> Machine {
        self.set(Flag::Carry, out).target_is(mode, result).zn(result)
    }

    /// Shift left: bit 7 goes to carry, bit 0 becomes zero.
    pub open spec fn asl(self, mode: AddressingMode) -> Machine {
        let value = self.target(mode);
        self.shifted(mode, is_negative(value), wrap8(value * 2))
    }

    /// Shift right: bit 0 goes to carry, bit 7 becomes zero.
    pub open spec fn lsr(self, mode: AddressingMode) -> Machine {
        let value = self.target(mode);
        self.shifted(mode, is_odd(value), (value / 2) as u8)
    }

    /// Rotate left: bit 7 goes to carry, the old carry becomes bit 0.
    pub open spec fn rol(self, mode: AddressingMode) -> Machine {
        let value = self.target(mode);
        self.shifted(mode, is_negative(value), wrap8(value * 2 + self.carry()))
    }

    /// Rotate right: bit 0 goes to carry, the old carry becomes bit 7.
    pub open spec fn ror(self, mode: AddressingMode) -> Machine {
        let value = self.target(mode);
        self.shifted(mode, is_odd(value), (value / 2 + 128 * self.carry()) as u8)
    }

    /// Bit test: zero is set iff the accumulator and the operand share no
    /// bit; negative and overflow are bits 7 and 6 of the operand.
    pub open spec fn bit(self) -> Machine {
        let value = self.operand();
        self.set(Flag::Zero, self.a & value == 0).set(Flag::Negative, is_negative(value)).set(
            Flag::Overflow,
            has_bit6(value),
        ).page_cross_paid()
    }

    /// The address that a taken branch goes to: the program counter, which
    /// stands behind the operand, plus the signed distance.
    pub open spec fn branch_target(self) -> u16 {
        wrap16(self.pc + self.relative_address)
    }

    /// Branch: where `taken` holds the program counter moves by the signed
    /// distance, which costs one cycle more; else nothing changes.
    pub open spec fn branched(self, taken: bool) -> Machine {
        if taken {
            Machine {
                absolute_address: self.branch_target(),
                pc: self.branch_target(),
                ..self
            }.delayed()
        } else {
            self
        }
    }

    /// Jump to subroutine: the address of the last byte of the instruction
    /// is pushed, then the program counter goes to the operand's address.
    pub open spec fn jsr(self) -> Machine {
        Machine { pc: self.absolute_address, ..self.pushed_word(wrap16(self.pc - 1)) }
    }

    /// Return from subroutine: the program counter is the word pulled, plus
    /// one.
    pub open spec fn rts(self) -> Machine {
        Machine { pc: wrap16(self.top_word() + 1), ..self.pulled().pulled() }
    }

    /// Pull the status byte.
    pub open spec fn plp(self) -> Machine {
        let after = self.pulled();
        Machine { p: pulled_status(after.top()), ..after }
    }

    /// Return from interrupt: the status byte is pulled, then the program
    /// counter.
    pub open spec fn rti(self) -> Machine {
        let after = self.plp();
        Machine { pc: after.top_word(), ..after.pulled().pulled() }
    }

    /// Software interrupt: the address behind the byte that follows the
    /// opcode is pushed, then the status byte; interrupts are disabled and
    /// the program counter is taken from the interrupt vector.
    pub open spec fn brk(self) -> Machine {
        let saved = self.pushed_word(wrap16(self.pc + 1)).pushed(pushed_status(self.p)).set(
            Flag::Interrupt,
            true,
        );
        Machine { pc: saved.vector(IRQ_VECTOR_ADDRESS_LO, IRQ_VECTOR_ADDRESS_HI), ..saved }
    }

    /// The state after `instruction`, where it sets or clears one flag; any
    /// other instruction, NOP among them, is taken to change nothing.
    #[verifier::opaque]
    pub open spec fn flag_instruction(self, instruction: Instruction) -> Machine {
        match instruction {
            Instruction::CLC => self.set(Flag::Carry, false),
            Instruction::CLD => self.set(Flag::Decimal, false),
            Instruction::CLI => self.set(Flag::Interrupt, false),
            Instruction::CLV => self.set(Flag::Overflow, false),
            Instruction::SEC => self.set(Flag::Carry, true),
            Instruction::SED => self.set(Flag::Decimal, true),
            Instruction::SEI => self.set(Flag::Interrupt, true),
            _ => self,
        }
    }

    /// The state after `instruction`, where it copies, increments or
    /// decrements a register; any other instruction is taken to change nothing.
    #[verifier::opaque]
    pub open spec fn register_instruction(self, instruction: Instruction) -> Machine {
        match instruction {
            Instruction::TAX => self.x_is(self.a),
            Instruction::TAY => self.y_is(self.a),
            Instruction::TXA => self.a_is(self.x),
            Instruction::TYA => self.a_is(self.y),
            Instruction::TSX => self.x_is(self.sp),
            Instruction::TXS => Machine { sp: self.x, ..self },
            Instruction::INX => self.x_is(wrap8(self.x + 1)),
            Instruction::INY => self.y_is(wrap8(self.y + 1)),
            Instruction::DEX => self.x_is(wrap8(self.x - 1)),
            Instruction::DEY => self.y_is(wrap8(self.y - 1)),
            _ => self,
        }
    }

    /// The state after `instruction`, where it is a load, a store, or an
    /// increment or decrement of memory; any other instruction is taken to
    /// change nothing.
    #[verifier::opaque]
    pub open spec fn memory_instruction(self, instruction: Instruction) -> Machine {
        match instruction {
            Instruction::LDA => self.lda(),
            Instruction::LDX => self.ldx(),
            Instruction::LDY => self.ldy(),
            Instruction::STA => self.stored(self.a),
            Instruction::STX => self.stored(self.x),
            Instruction::STY => self.stored(self.y),
            Instruction::INC => self.memory_is(wrap8(self.operand() + 1)),
            Instruction::DEC => self.memory_is(wrap8(self.operand() - 1)),
            _ => self,
        }
    }

    /// The state after `instruction`, where it is a logic, arithmetic, compare
    /// or bit-test instruction; any other instruction is taken to change
    /// nothing.
    #[verifier::opaque]
    pub open spec fn alu_instruction(self, instruction: Instruction) -> Machine {
        match instruction {
            Instruction::AND => self.a_is(self.a & self.operand()).page_cross_paid(),
            Instruction::ORA => self.a_is(self.a | self.operand()).page_cross_paid(),
            Instruction::EOR => self.a_is(self.a ^ self.operand()).page_cross_paid(),
            Instruction::CMP => self.compared(self.a),
            Instruction::CPX => self.compared(self.x),
            Instruction::CPY => self.compared(self.y),
            Instruction::ADC => self.adc(),
            Instruction::SBC => self.sbc(),
            Instruction::BIT => self.bit(),
            _ => self,
        }
    }

    /// The state after `instruction`, where it is a conditional branch; any
    /// other instruction is taken to change nothing.
    #[verifier::opaque]
    pub open spec fn branch_instruction(self, instruction: Instruction) -> Machine {
        match instruction {
            Instruction::BCS => self.branched(self.flag(Flag::Carry)),
            Instruction::BCC => self.branched(!self.flag(Flag::Carry)),
            Instruction::BEQ => self.branched(self.flag(Flag::Zero)),
            Instruction::BNE => self.branched(!self.flag(Flag::Zero)),
            Instruction::BMI => self.branched(self.flag(Flag::Negative)),
            Instruction::BPL => self.branched(!self.flag(Flag::Negative)),
            Instruction::BVS => self.branched(self.flag(Flag::Overflow)),
            Instruction::BVC => self.branched(!self.flag(Flag::Overflow)),
            _ => self,
        }
    }

    /// The state after `instruction`, where it is a shift or a rotation of the
    /// byte that `mode` names; any other instruction is taken to change
    /// nothing.
    #[verifier::opaque]
    pub open spec fn shift_instruction(
        self,
        instruction: Instruction,
        mode: AddressingMode,
    ) -> Machine {
        match instruction {
            Instruction::ASL => self.asl(mode),
            Instruction::LSR => self.lsr(mode),
            Instruction::ROL => self.rol(mode),
            Instruction::ROR => self.ror(mode),
            _ => self,
        }
    }

    /// The state after `instruction`, where it is a push or a pull; any other
    /// instruction is taken to change nothing.
    #[verifier::opaque]
    pub open spec fn stack_instruction(self, instruction: Instruction) -> Machine {
        match instruction {
            Instruction::PHA => self.pushed(self.a),
            Instruction::PHP => self.pushed(pushed_status(self.p)),
            Instruction::PLA => self.pulled().a_is(self.pulled().top()),
            Instruction::PLP => self.plp(),
            _ => self,
        }
    }

    /// The state after `instruction`, where it is a jump, a call, a return or
    /// a software interrupt; any other instruction is taken to change nothing.
    #[verifier::opaque]
    pub open spec fn jump_instruction(self, instruction: Instruction) -> Machine {
        match instruction {
            Instruction::JMP => Machine { pc: self.absolute_address, ..self },
            Instruction::JSR => self.jsr(),
            Instruction::RTS => self.rts(),
            Instruction::RTI => self.rti(),
            Instruction::BRK => self.brk(),
            _ => self,
        }
    }

    /// The state after `instruction` has run on an operand found under
    /// `mode`: what the family of the instruction says.
    pub open spec fn executed(self, instruction: Instruction, mode: AddressingMode) -> Machine {
        match instruction {
            Instruction::NOP
            | Instruction::CLC
            | Instruction::CLD
            | Instruction::CLI
            | Instruction::CLV
            | Instruction::SEC
            | Instruction::SED
            | Instruction::SEI => self.flag_instruction(instruction),
            Instruction::TAX
            | Instruction::TAY
            | Instruction::TXA
            | Instruction::TYA
            | Instruction::TSX
            | Instruction::TXS
            | Instruction::INX
            | Instruction::INY
            | Instruction::DEX
            | Instruction::DEY => self.register_instruction(instruction),
            Instruction::LDA
            | Instruction::LDX
            | Instruction::LDY
            | Instruction::STA
            | Instruction::STX
            | Instruction::STY
            | Instruction::INC
            | Instruction::DEC => self.memory_instruction(instruction),
            Instruction::AND
            | Instruction::ORA
            | Instruction::EOR
            | Instruction::CMP
            | Instruction::CPX
            | Instruction::CPY
            | Instruction::ADC
            | Instruction::SBC
            | Instruction::BIT => self.alu_instruction(instruction),
            Instruction::BCS
            | Instruction::BCC
            | Instruction::BEQ
            | Instruction::BNE
            | Instruction::BMI
            | Instruction::BPL
            | Instruction::BVS
            | Instruction::BVC => self.branch_instruction(instruction),
            Instruction::ASL
            | Instruction::LSR
            | Instruction::ROL
            | Instruction::ROR => self.shift_instruction(instruction, mode),
            Instruction::PHA
            | Instruction::PHP
            | Instruction::PLA
            | Instruction::PLP => self.stack_instruction(instruction),
            Instruction::JMP
            | Instruction::JSR
            | Instruction::RTS
            | Instruction::RTI
            | Instruction::BRK => self.jump_instruction(instruction),
        }
    }

    // ---------------------------------------------------------------
    // The clock and the interrupt lines
    // ---------------------------------------------------------------
    /// The state after the instruction of `opcode` has been taken from the
    /// program counter and run: the opcode byte is passed, the cycles of the
    /// opcode are set, the operand is found and the instruction executed.
    pub open spec fn run(self, opcode: Opcode) -> Machine {
        Machine { pc: wrap16(self.pc + 1), cycles: opcode.cycles, ..self }.addressed(
            opcode.addressing_mode,
        ).executed(opcode.instruction, opcode.addressing_mode)
    }

    /// The state with one cycle less to go.
    pub open spec fn waited(self) -> Machine {
        Machine { cycles: (self.cycles - 1) as u8, ..self }
    }

    /// Whether the next tick fails: no instruction is in flight, and the byte
    /// at the program counter is no documented opcode.
    pub open spec fn halts(self) -> bool {
        self.cycles == 0 && decoded(self.fetch(0)) is None
    }

    /// The state after one tick of the clock. With no instruction in flight
    /// the next one is run in full; then, and in any other case, one cycle
    /// passes. A byte that is no opcode is passed over and nothing else
    /// changes.
    pub open spec fn ticked(self) -> Machine {
        if self.cycles == 0 {
            match decoded(self.fetch(0)) {
                Some(opcode) => self.run(opcode).waited(),
                None => Machine { pc: wrap16(self.pc + 1), ..self },
            }
        } else {
            self.waited()
        }
    }

    /// The state of a processor that has just been switched on, on a bus in
    /// state `bus`.
    pub open spec fn power_on(bus: BusView) -> Machine {
        Machine {
            a: 0,
            x: 0,
            y: 0,
            sp: STACK_POINTER_INITIAL_OFFSET,
            pc: word(bus.peek(RESET_VECTOR_ADDRESS_HI), bus.peek(RESET_VECTOR_ADDRESS_LO)),
            p: with_flag(with_flag(0, Flag::Unused, true), Flag::Interrupt, true),
            cycles: 0,
            absolute_address: 0,
            relative_address: 0,
            page_crossed: false,
            bus,
        }
    }

    /// The state after a reset: registers and scratch values are cleared,
    /// the stack pointer and the program counter are set anew, the status
    /// byte holds the unused bit alone, and eight cycles are to go.
    pub open spec fn reset(self) -> Machine {
        Machine {
            a: 0,
            x: 0,
            y: 0,
            sp: STACK_POINTER_INITIAL_OFFSET,
            pc: self.vector(RESET_VECTOR_ADDRESS_LO, RESET_VECTOR_ADDRESS_HI),
            p: with_flag(0, Flag::Unused, true),
            cycles: RESET_CYCLES,
            absolute_address: 0,
            relative_address: 0,
            page_crossed: false,
            bus: self.bus,
        }
    }

    /// The state after an interrupt has been entered through the vector at
    /// `lo` and `hi`, with `status` as the byte that is pushed: the program
    /// counter and the status byte are on the stack, interrupts are
    /// disabled, and seven cycles are to go.
    pub open spec fn interrupted(self, status: u8, lo: u16, hi: u16) -> Machine {
        let saved = self.pushed_word(self.pc).pushed(status).set(Flag::Interrupt, true);
        Machine { pc: saved.vector(lo, hi), cycles: INTERRUPT_CYCLES, ..saved }
    }

    /// The state after an interrupt request: it is served unless interrupts
    /// are disabled.
    pub open spec fn irq(self) -> Machine {
        if self.flag(Flag::Interrupt) {
            self
        } else {
            self.interrupted(self.p, IRQ_VECTOR_ADDRESS_LO, IRQ_VECTOR_ADDRESS_HI)
        }
    }

    /// The state after a non-maskable interrupt, which is always served.
    pub open spec fn nmi(self) -> Machine {
        self.interrupted(
            with_flag(self.p, Flag::Unused, true),
            NMI_VECTOR_ADDRESS_LO,
            NMI_VECTOR_ADDRESS_HI,
        )
    }
}

} // verus!
