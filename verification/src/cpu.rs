//! The 6502 interpreter: the registers, the clock that drives the
//! instruction stream, the interrupt lines, and the evaluation of addressing
//! modes and instructions.

use crate::bus::cpu_bus::CpuBus;
use crate::bus::cpu_bus::IRQ_VECTOR_ADDRESS_HI;
use crate::bus::cpu_bus::IRQ_VECTOR_ADDRESS_LO;
use crate::bus::cpu_bus::NMI_VECTOR_ADDRESS_HI;
use crate::bus::cpu_bus::NMI_VECTOR_ADDRESS_LO;
use crate::bus::cpu_bus::RESET_VECTOR_ADDRESS_HI;
use crate::bus::cpu_bus::RESET_VECTOR_ADDRESS_LO;
use crate::cpu::arith::has_bit6;
use crate::cpu::arith::high_byte;
use crate::cpu::arith::is_negative;
use crate::cpu::arith::is_odd;
use crate::cpu::arith::lemma_bit_tests;
use crate::cpu::arith::lemma_bytes_from_bits;
use crate::cpu::arith::lemma_rotations;
use crate::cpu::arith::lemma_shifts;
use crate::cpu::arith::lemma_word_from_bits;
use crate::cpu::arith::low_byte;
use crate::cpu::arith::pages_differ;
use crate::cpu::arith::signed;
use crate::cpu::arith::word;
use crate::cpu::arith::wrap16;
use crate::cpu::arith::wrap8;
use crate::cpu::machine::Machine;
use crate::cpu::machine::INTERRUPT_CYCLES;
use crate::cpu::machine::RESET_CYCLES;
use crate::cpu::machine::STACK_POINTER_ADDRESS;
use crate::cpu::machine::STACK_POINTER_INITIAL_OFFSET;
use crate::errors::AppError;
use crate::errors::AppResult;
use crate::instructions::lemma_cycles_in_range;
use crate::instructions::AddressingMode;
use crate::instructions::Instruction;
use crate::instructions::Opcode;
use crate::status::Flag;
use crate::status::Status;
use vstd::prelude::*;

pub mod arith;
pub mod laws;
pub mod machine;

verus! {

/// The processor.
pub struct CPU {
    /// Accumulator.
    pub a: u8,
    /// Index register X.
    pub x: u8,
    /// Index register Y.
    pub y: u8,
    /// Stack pointer.
    pub sp: u8,
    /// Program counter.
    pub pc: u16,
    /// Status register.
    pub status: Status,
    /// The bus that the processor owns.
    pub bus: CpuBus,
    /// Cycles that the instruction in flight still takes.
    pub cycles: u8,
    /// Address of the operand of the instruction in flight.
    pub absolute_address: u16,
    /// Distance of the branch in flight.
    pub relative_address: i16,
    /// Whether indexing the operand's address left the page of its base.
    pub page_crossed: bool,
}

impl View for CPU {
    type V = Machine;

    /// The processor and what is on its bus, as a state of the machine.
    open spec fn view(&self) -> Machine {
        Machine {
            a: self.a,
            x: self.x,
            y: self.y,
            sp: self.sp,
            pc: self.pc,
            p: self.status@,
            cycles: self.cycles,
            absolute_address: self.absolute_address,
            relative_address: self.relative_address,
            page_crossed: self.page_crossed,
            bus: self.bus@,
        }
    }
}

/// The byte read as a signed number.
fn sign_extend(byte: u8) -> (value: i16)
    ensures
        value == signed(byte),
{
    if byte < 0x80 {
        byte as i16
    } else {
        byte as i16 - 256
    }
}

/// The high byte of `value`.
fn high_byte_of(value: u16) -> (byte: u8)
    ensures
        byte == high_byte(value),
{
    proof {
        lemma_bytes_from_bits(value);
    }
    (value >> 8) as u8
}

/// The low byte of `value`.
fn low_byte_of(value: u16) -> (byte: u8)
    ensures
        byte == low_byte(value),
{
    proof {
        lemma_bytes_from_bits(value);
    }
    (value & 0xFF) as u8
}

/// Whether two bytes differ in sign, told from the bits of the operands.
proof fn lemma_sign_test(left: u8, right: u8)
    ensures
        ((left ^ right) & 0x80 != 0) == (is_negative(left) != is_negative(right)),
{
    assert(((left ^ right) & 0x80 != 0) == ((left >= 0x80) != (right >= 0x80))) by (bit_vector);
}

impl CPU {
    /// A processor that has just been switched on: the program counter comes
    /// from the reset vector.
    pub fn new(bus: CpuBus) -> (cpu: Self)
        requires
            bus@.complete(),
        ensures
            cpu@ == Machine::power_on(bus@),
    {
        let lo = bus.read(RESET_VECTOR_ADDRESS_LO);
        let hi = bus.read(RESET_VECTOR_ADDRESS_HI);
        proof {
            lemma_word_from_bits(hi, lo);
        }
        Self {
            a: 0,
            x: 0,
            y: 0,
            sp: STACK_POINTER_INITIAL_OFFSET,
            pc: ((hi as u16) << 8) | (lo as u16),
            status: Status::empty().with(Flag::Unused).with(Flag::Interrupt),
            bus: bus,
            cycles: 0,
            absolute_address: 0,
            relative_address: 0,
            page_crossed: false,
        }
    }

    /// One tick of the clock. With no instruction in flight, the next one is
    /// fetched, decoded and run in full; then one of its cycles passes. A
    /// byte that is no opcode fails the tick.
    pub fn clock(&mut self) -> (result: AppResult<()>)
        requires
            old(self)@.wf(),
        ensures
            final(self)@ == old(self)@.ticked(),
            final(self)@.wf(),
            result == if old(self)@.halts() {
                Err::<(), AppError>(AppError::InvalidOpcode)
            } else {
                Ok::<(), AppError>(())
            },
    {
        if self.cycles == 0 {
            let byte = self.bus.read(self.pc);

            match Opcode::decode(byte) {
                Some(opcode) => {
                    proof {
                        lemma_cycles_in_range(byte);
                    }
                    self.run(opcode);
                },
                None => {
                    self.increment_pc();
                    return Err(AppError::InvalidOpcode);
                },
            }
        }
        self.cycles -= 1;
        Ok(())
    }

    /// Runs the instruction of `opcode`, whose opcode byte stands at the
    /// program counter: passes the byte, sets the cycles, finds the operand
    /// and executes.
    fn run(&mut self, opcode: Opcode)
        requires
            old(self)@.wf(),
            2 <= opcode.cycles <= 7,
        ensures
            final(self)@ == old(self)@.run(opcode),
            final(self)@.wf(),
            2 <= final(self)@.cycles <= 8,
    {
        self.increment_pc();
        self.cycles = opcode.cycles;
        self.execute_addressing_mode(opcode.addressing_mode);
        self.execute_instruction(opcode.instruction, opcode.addressing_mode);
    }

    /// Resets the processor.
    pub fn reset(&mut self)
        requires
            old(self)@.wf(),
        ensures
            final(self)@ == old(self)@.reset(),
            final(self)@.wf(),
    {
        self.a = 0;
        self.x = 0;
        self.y = 0;
        self.sp = STACK_POINTER_INITIAL_OFFSET;

        let lo = self.bus.read(RESET_VECTOR_ADDRESS_LO);
        let hi = self.bus.read(RESET_VECTOR_ADDRESS_HI);

        self.pc = self.get_bytes_to_address(hi, lo);
        self.absolute_address = 0x0000;
        self.relative_address = 0x0000;
        self.page_crossed = false;
        self.status = Status::empty().with(Flag::Unused);
        self.cycles = RESET_CYCLES;
    }

    /// Raises an interrupt request, which is served unless interrupts are
    /// disabled.
    pub fn irq(&mut self)
        requires
            old(self)@.wf(),
        ensures
            final(self)@ == old(self)@.irq(),
            final(self)@.wf(),
    {
        if self.get_status_flag(Flag::Interrupt) {
            return ;
        }
        let status = self.status;
        self.enter_interrupt(status.bits(), IRQ_VECTOR_ADDRESS_LO, IRQ_VECTOR_ADDRESS_HI);
    }

    /// Raises a non-maskable interrupt, which is always served.
    pub fn nmi(&mut self)
        requires
            old(self)@.wf(),
        ensures
            final(self)@ == old(self)@.nmi(),
            final(self)@.wf(),
    {
        let status = self.status.with(Flag::Unused);
        self.enter_interrupt(status.bits(), NMI_VECTOR_ADDRESS_LO, NMI_VECTOR_ADDRESS_HI);
    }

    /// Saves the program counter and `status` on the stack, disables
    /// interrupts and goes on at the address that the vector holds.
    fn enter_interrupt(&mut self, status: u8, lo: u16, hi: u16)
        requires
            old(self)@.wf(),
        ensures
            final(self)@ == old(self)@.interrupted(status, lo, hi),
            final(self)@.wf(),
    {
        let pc = self.pc;
        self.write_word_to_stack(pc);
        self.write_to_stack(status);
        self.set_status_flag(Flag::Interrupt, true);

        let lo = self.bus.read(lo);
        let hi = self.bus.read(hi);
        self.pc = self.get_bytes_to_address(hi, lo);

        self.cycles = INTERRUPT_CYCLES;
    }

    /// Moves the program counter on by one byte.
    pub fn increment_pc(&mut self)
        ensures
            final(self)@ == (Machine { pc: wrap16(old(self)@.pc + 1), ..old(self)@ }),
    {
        self.pc = self.pc.wrapping_add(1);
    }

    /// Switches `flag` on where `condition` holds and off otherwise.
    pub fn set_status_flag(&mut self, flag: Flag, condition: bool)
        ensures
            final(self)@ == old(self)@.set(flag, condition),
    {
        if condition {
            self.status.insert(flag);
        } else {
            self.status.remove(flag);
        }
    }

    /// Whether `flag` is set.
    pub fn get_status_flag(&self, flag: Flag) -> (set: bool)
        ensures
            set == self@.flag(flag),
    {
        self.status.contains(flag)
    }

    /// Takes the byte at the program counter and moves the counter on.
    fn fetch_operand_byte(&mut self) -> (byte: u8)
        requires
            old(self)@.wf(),
        ensures
            byte == old(self)@.fetch(0),
            final(self)@ == (Machine { pc: wrap16(old(self)@.pc + 1), ..old(self)@ }),
    {
        let byte = self.bus.read(self.pc);
        self.increment_pc();
        byte
    }

    /// Takes the word at the program counter, low byte first, and moves the
    /// counter behind it. Returns the word's high and low byte.
    fn fetch_operand_word(&mut self) -> (bytes: (u8, u8))
        requires
            old(self)@.wf(),
        ensures
            bytes.0 == old(self)@.fetch(1),
            bytes.1 == old(self)@.fetch(0),
            final(self)@ == (Machine { pc: wrap16(old(self)@.pc + 2), ..old(self)@ }),
    {
        let lo = self.fetch_operand_byte();
        let hi = self.fetch_operand_byte();
        (hi, lo)
    }

    /// The word that page zero holds at `pointer`.
    fn read_zero_page_word(&self, pointer: u8) -> (value: u16)
        requires
            self@.wf(),
        ensures
            value == self@.zero_page_word(pointer),
    {
        let lo = self.bus.read(pointer as u16);
        let hi = self.bus.read(pointer.wrapping_add(1) as u16);
        self.get_bytes_to_address(hi, lo)
    }

    /// Notes the address that `base` plus `index` gives, and whether it lies
    /// in another page than `base`.
    fn index_from(&mut self, base: u16, index: u8)
        ensures
            final(self)@ == (Machine {
                absolute_address: wrap16(base + index),
                page_crossed: pages_differ(base, wrap16(base + index)),
                ..old(self)@
            }),
    {
        self.absolute_address = base.wrapping_add(index as u16);
        self.page_crossed = base / 256 != self.absolute_address / 256;
    }

    /// Notes the operand's address for a mode that finds it without indexing
    /// a 16-bit base.
    fn address_at(&mut self, address: u16)
        ensures
            final(self)@ == (Machine {
                absolute_address: address,
                page_crossed: false,
                ..old(self)@
            }),
    {
        self.absolute_address = address;
        self.page_crossed = false;
    }

    /// Immediate: the operand is the byte at the program counter.
    fn address_immediate(&mut self)
        ensures
            final(self)@ == old(self)@.addressed(AddressingMode::Immediate),
    {
        proof {
            reveal(Machine::effective_address);
        }
        self.address_at(self.pc);
        self.increment_pc();
    }

    /// Relative: the operand byte is a signed distance.
    fn address_relative(&mut self)
        requires
            old(self)@.wf(),
        ensures
            final(self)@ == old(self)@.addressed(AddressingMode::Relative),
    {
        proof {
            reveal(Machine::effective_address);
        }
        let offset = self.fetch_operand_byte();
        self.relative_address = sign_extend(offset);
        self.page_crossed = false;
    }

    /// Zero page: the operand byte is the address.
    fn address_zero_page(&mut self)
        requires
            old(self)@.wf(),
        ensures
            final(self)@ == old(self)@.addressed(AddressingMode::ZeroPage),
    {
        proof {
            reveal(Machine::effective_address);
        }
        let base = self.fetch_operand_byte();
        self.address_at(base as u16);
    }

    /// Zero page, indexed: the operand byte plus `index`, kept in page zero.
    fn address_zero_page_indexed(&mut self, index: u8)
        requires
            old(self)@.wf(),
        ensures
            final(self)@ == (Machine {
                absolute_address: wrap8(old(self)@.fetch(0) + index) as u16,
                page_crossed: false,
                pc: wrap16(old(self)@.pc + 1),
                ..old(self)@
            }),
    {
        let base = self.fetch_operand_byte();
        self.address_at(base.wrapping_add(index) as u16);
    }

    /// Absolute: the operand word is the address.
    fn address_absolute(&mut self)
        requires
            old(self)@.wf(),
        ensures
            final(self)@ == old(self)@.addressed(AddressingMode::Absolute),
    {
        proof {
            reveal(Machine::effective_address);
        }
        let (hi, lo) = self.fetch_operand_word();
        self.address_at(self.get_bytes_to_address(hi, lo));
    }

    /// Absolute, indexed: the operand word plus `index`.
    fn address_absolute_indexed(&mut self, index: u8)
        requires
            old(self)@.wf(),
        ensures
            final(self)@ == (Machine {
                absolute_address: wrap16(old(self)@.operand_word() + index),
                page_crossed: pages_differ(
                    old(self)@.operand_word(),
                    wrap16(old(self)@.operand_word() + index),
                ),
                pc: wrap16(old(self)@.pc + 2),
                ..old(self)@
            }),
    {
        let (hi, lo) = self.fetch_operand_word();
        let base = self.get_bytes_to_address(hi, lo);
        self.index_from(base, index);
    }

    /// Indirect: the operand word is the address of the address. The
    /// pointer's high byte is not carried into: at the end of a page the
    /// second byte comes from the start of the same page.
    fn address_indirect(&mut self)
        requires
            old(self)@.wf(),
        ensures
            final(self)@ == old(self)@.addressed(AddressingMode::Indirect),
    {
        proof {
            reveal(Machine::effective_address);
        }
        let (ptr_hi, ptr_lo) = self.fetch_operand_word();

        let lo = self.bus.read(self.get_bytes_to_address(ptr_hi, ptr_lo));
        let hi = self.bus.read(self.get_bytes_to_address(ptr_hi, ptr_lo.wrapping_add(1)));

        self.address_at(self.get_bytes_to_address(hi, lo));
    }

    /// Indexed indirect: the pointer stands in page zero at the operand byte
    /// plus X.
    fn address_indirect_x(&mut self)
        requires
            old(self)@.wf(),
        ensures
            final(self)@ == old(self)@.addressed(AddressingMode::IndirectX),
    {
        proof {
            reveal(Machine::effective_address);
        }
        let base = self.fetch_operand_byte();
        self.address_at(self.read_zero_page_word(base.wrapping_add(self.x)));
    }

    /// Indirect indexed: the pointer stands in page zero at the operand
    /// byte, and Y is added to what it holds.
    fn address_indirect_y(&mut self)
        requires
            old(self)@.wf(),
        ensures
            final(self)@ == old(self)@.addressed(AddressingMode::IndirectY),
    {
        proof {
            reveal(Machine::effective_address);
        }
        let base = self.fetch_operand_byte();
        let ptr = self.read_zero_page_word(base);
        self.index_from(ptr, self.y);
    }

    /// Finds the operand under `addressing_mode`: takes the operand bytes
    /// from the program counter and notes the operand's address, or for a
    /// branch its distance.
    pub fn execute_addressing_mode(&mut self, addressing_mode: AddressingMode)
        requires
            old(self)@.wf(),
        ensures
            final(self)@ == old(self)@.addressed(addressing_mode),
            final(self)@.wf(),
            final(self)@.pc == wrap16(old(self)@.pc + addressing_mode.operand_bytes()),
    {
        proof {
            reveal(Machine::effective_address);
        }
        match addressing_mode {
            AddressingMode::Implied => {
                self.page_crossed = false;
            },
            AddressingMode::Accumulator => {
                self.page_crossed = false;
            },
            AddressingMode::Immediate => self.address_immediate(),
            AddressingMode::Relative => self.address_relative(),
            AddressingMode::ZeroPage => self.address_zero_page(),
            AddressingMode::ZeroPageX => self.address_zero_page_indexed(self.x),
            AddressingMode::ZeroPageY => self.address_zero_page_indexed(self.y),
            AddressingMode::Absolute => self.address_absolute(),
            AddressingMode::AbsoluteX => self.address_absolute_indexed(self.x),
            AddressingMode::AbsoluteY => self.address_absolute_indexed(self.y),
            AddressingMode::Indirect => self.address_indirect(),
            AddressingMode::IndirectX => self.address_indirect_x(),
            AddressingMode::IndirectY => self.address_indirect_y(),
        }
    }

    /// Adds the cycle that a page crossing costs an instruction that reads
    /// its operand.
    fn pay_page_cross(&mut self)
        ensures
            final(self)@ == old(self)@.page_cross_paid(),
    {
        if self.page_crossed {
            self.cycles = self.cycles.wrapping_add(1);
        }
    }

    /// Puts `value` into the accumulator and takes zero and negative from it.
    fn load_a(&mut self, value: u8)
        ensures
            final(self)@ == old(self)@.a_is(value),
    {
        self.a = value;
        self.update_zero_negative_flags(value);
    }

    /// Puts `value` into X and takes zero and negative from it.
    fn load_x(&mut self, value: u8)
        ensures
            final(self)@ == old(self)@.x_is(value),
    {
        self.x = value;
        self.update_zero_negative_flags(value);
    }

    /// Puts `value` into Y and takes zero and negative from it.
    fn load_y(&mut self, value: u8)
        ensures
            final(self)@ == old(self)@.y_is(value),
    {
        self.y = value;
        self.update_zero_negative_flags(value);
    }

    /// Puts `value` at the operand's address and takes zero and negative
    /// from it.
    fn store_back(&mut self, value: u8)
        requires
            old(self)@.wf(),
        ensures
            final(self)@ == old(self)@.memory_is(value),
            final(self)@.wf(),
    {
        self.bus.write(self.absolute_address, value);
        self.update_zero_negative_flags(value);
    }

    /// Adds the operand and the carry to the accumulator.
    fn add_with_carry(&mut self)
        requires
            old(self)@.wf(),
        ensures
            final(self)@ == old(self)@.adc(),
    {
        let value = self.bus.read(self.absolute_address);
        let carry: u16 = if self.get_status_flag(Flag::Carry) {
            1
        } else {
            0
        };
        let sum: u16 = self.a as u16 + value as u16 + carry;
        let result: u8 = (sum % 256) as u8;
        proof {
            lemma_sign_test(self.a, value);
            lemma_sign_test(self.a, result);
        }
        self.set_status_flag(Flag::Carry, sum > 0xFF);
        self.set_status_flag(
            Flag::Overflow,
            (self.a ^ value) & 0x80 == 0 && (self.a ^ result) & 0x80 != 0,
        );
        self.load_a(result);
        self.pay_page_cross();
    }

    /// Subtracts the operand and the borrow from the accumulator.
    fn subtract_with_borrow(&mut self)
        requires
            old(self)@.wf(),
        ensures
            final(self)@ == old(self)@.sbc(),
    {
        let value = self.bus.read(self.absolute_address);
        let carry: i16 = if self.get_status_flag(Flag::Carry) {
            1
        } else {
            0
        };
        let difference: i16 = self.a as i16 - value as i16 - (1 - carry);
        let result: u8 = if difference < 0 {
            (difference + 256) as u8
        } else {
            difference as u8
        };
        proof {
            lemma_sign_test(self.a, value);
            lemma_sign_test(self.a, result);
        }
        self.set_status_flag(Flag::Carry, difference >= 0);
        self.set_status_flag(
            Flag::Overflow,
            (self.a ^ value) & 0x80 != 0 && (self.a ^ result) & 0x80 != 0,
        );
        self.load_a(result);
        self.pay_page_cross();
    }

    /// Compares `register` with the operand.
    fn compare(&mut self, register: u8)
        requires
            old(self)@.wf(),
        ensures
            final(self)@ == old(self)@.compared(register),
    {
        let value = self.bus.read(self.absolute_address);
        let result = register.wrapping_sub(value);

        self.set_status_flag(Flag::Carry, register >= value);
        self.update_zero_negative_flags(result);
        self.pay_page_cross();
    }

    /// Goes to the branch target where `taken` holds.
    fn branch(&mut self, taken: bool)
        ensures
            final(self)@ == old(self)@.branched(taken),
    {
        if taken {
            self.absolute_address = self.pc.wrapping_add_signed(self.relative_address);
            self.pc = self.absolute_address;
            self.cycles = self.cycles.wrapping_add(1);
        }
    }

    /// Moves `out` into carry and puts `result` where the shifted byte came
    /// from.
    fn finish_shift(&mut self, addressing_mode: AddressingMode, out: bool, result: u8)
        requires
            old(self)@.wf(),
        ensures
            final(self)@ == old(self)@.shifted(addressing_mode, out, result),
            final(self)@.wf(),
    {
        self.set_status_flag(Flag::Carry, out);
        self.write_a_or_absolute(addressing_mode, result);
        self.update_zero_negative_flags(result);
    }

    /// Tests the bits of the operand against the accumulator.
    fn bit_test(&mut self)
        requires
            old(self)@.wf(),
        ensures
            final(self)@ == old(self)@.bit(),
    {
        let value = self.bus.read(self.absolute_address);
        self.set_status_flag(Flag::Zero, self.is_zero(self.a & value));
        self.set_status_flag(Flag::Negative, self.is_negative(value));
        self.set_status_flag(Flag::Overflow, self.is_overflow(value));
        self.pay_page_cross();
    }

    /// Takes the status register from the stack.
    fn pull_status(&mut self)
        requires
            old(self)@.wf(),
        ensures
            final(self)@ == old(self)@.plp(),
    {
        let status = self.read_from_stack();
        self.status = Status::from_bits_truncate(status);
        self.set_status_flag(Flag::Break, false);
        self.set_status_flag(Flag::Unused, true);
    }

    /// Takes a word from the stack, low byte first.
    fn read_word_from_stack(&mut self) -> (value: u16)
        requires
            old(self)@.wf(),
        ensures
            value == old(self)@.top_word(),
            final(self)@ == old(self)@.pulled().pulled(),
    {
        let lo = self.read_from_stack();
        let hi = self.read_from_stack();
        self.get_bytes_to_address(hi, lo)
    }

    /// Puts a word on the stack, high byte first.
    fn write_word_to_stack(&mut self, value: u16)
        requires
            old(self)@.wf(),
        ensures
            final(self)@ == old(self)@.pushed_word(value),
            final(self)@.wf(),
    {
        self.write_to_stack(high_byte_of(value));
        self.write_to_stack(low_byte_of(value));
    }

    /// Saves the address of the instruction's last byte and goes to the
    /// operand's address.
    fn call_subroutine(&mut self)
        requires
            old(self)@.wf(),
        ensures
            final(self)@ == old(self)@.jsr(),
            final(self)@.wf(),
    {
        let return_address = self.pc.wrapping_sub(1);
        self.write_word_to_stack(return_address);
        self.pc = self.absolute_address;
    }

    /// Goes on behind the address that the stack holds.
    fn return_from_subroutine(&mut self)
        requires
            old(self)@.wf(),
        ensures
            final(self)@ == old(self)@.rts(),
    {
        let address = self.read_word_from_stack();
        self.pc = address.wrapping_add(1);
    }

    /// Takes the status register and the program counter from the stack.
    fn return_from_interrupt(&mut self)
        requires
            old(self)@.wf(),
        ensures
            final(self)@ == old(self)@.rti(),
    {
        self.pull_status();
        self.pc = self.read_word_from_stack();
    }

    /// Enters the interrupt handler as a BRK instruction does.
    fn software_interrupt(&mut self)
        requires
            old(self)@.wf(),
        ensures
            final(self)@ == old(self)@.brk(),
            final(self)@.wf(),
    {
        let return_address = self.pc.wrapping_add(1);
        self.write_word_to_stack(return_address);
        let status = self.status.with(Flag::Break).with(Flag::Unused);
        self.write_to_stack(status.bits());
        self.set_status_flag(Flag::Interrupt, true);
        let lo = self.bus.read(IRQ_VECTOR_ADDRESS_LO);
        let hi = self.bus.read(IRQ_VECTOR_ADDRESS_HI);
        self.pc = self.get_bytes_to_address(hi, lo);
    }

    /// Runs NOP or an instruction that sets or clears one flag.
    fn execute_flag_instruction(&mut self, instruction: Instruction)
        requires
            old(self)@.wf(),
        ensures
            final(self)@ == old(self)@.flag_instruction(instruction),
            final(self)@.wf(),
            final(self)@.cycles == old(self)@.cycles || final(self)@.cycles == wrap8(
                old(self)@.cycles + 1,
            ),
    {
        proof {
            reveal(Machine::flag_instruction);
        }
        match instruction {
            Instruction::CLC => self.set_status_flag(Flag::Carry, false),
            Instruction::CLD => self.set_status_flag(Flag::Decimal, false),
            Instruction::CLI => self.set_status_flag(Flag::Interrupt, false),
            Instruction::CLV => self.set_status_flag(Flag::Overflow, false),
            Instruction::SEC => self.set_status_flag(Flag::Carry, true),
            Instruction::SED => self.set_status_flag(Flag::Decimal, true),
            Instruction::SEI => self.set_status_flag(Flag::Interrupt, true),
            _ => {},
        }
    }

    /// Runs an instruction that copies, increments or decrements a register.
    fn execute_register_instruction(&mut self, instruction: Instruction)
        requires
            old(self)@.wf(),
        ensures
            final(self)@ == old(self)@.register_instruction(instruction),
            final(self)@.wf(),
            final(self)@.cycles == old(self)@.cycles || final(self)@.cycles == wrap8(
                old(self)@.cycles + 1,
            ),
    {
        proof {
            reveal(Machine::register_instruction);
        }
        match instruction {
            Instruction::TAX => self.load_x(self.a),
            Instruction::TAY => self.load_y(self.a),
            Instruction::TXA => self.load_a(self.x),
            Instruction::TYA => self.load_a(self.y),
            Instruction::TSX => self.load_x(self.sp),
            Instruction::TXS => {
                self.sp = self.x;
            },
            Instruction::INX => self.load_x(self.x.wrapping_add(1)),
            Instruction::INY => self.load_y(self.y.wrapping_add(1)),
            Instruction::DEX => self.load_x(self.x.wrapping_sub(1)),
            Instruction::DEY => self.load_y(self.y.wrapping_sub(1)),
            _ => {},
        }
    }

    /// Runs a load, a store, or an increment or decrement of memory.
    fn execute_memory_instruction(&mut self, instruction: Instruction)
        requires
            old(self)@.wf(),
        ensures
            final(self)@ == old(self)@.memory_instruction(instruction),
            final(self)@.wf(),
            final(self)@.cycles == old(self)@.cycles || final(self)@.cycles == wrap8(
                old(self)@.cycles + 1,
            ),
    {
        proof {
            reveal(Machine::memory_instruction);
        }
        match instruction {
            Instruction::LDA => {
                let value = self.bus.read(self.absolute_address);
                self.load_a(value);
                self.pay_page_cross();
            },
            Instruction::LDX => {
                let value = self.bus.read(self.absolute_address);
                self.load_x(value);
                self.pay_page_cross();
            },
            Instruction::LDY => {
                let value = self.bus.read(self.absolute_address);
                self.load_y(value);
                self.pay_page_cross();
            },
            Instruction::STA => {
                self.bus.write(self.absolute_address, self.a);
            },
            Instruction::STX => {
                self.bus.write(self.absolute_address, self.x);
            },
            Instruction::STY => {
                self.bus.write(self.absolute_address, self.y);
            },
            Instruction::INC => {
                let value = self.bus.read(self.absolute_address);
                self.store_back(value.wrapping_add(1));
            },
            Instruction::DEC => {
                let value = self.bus.read(self.absolute_address);
                self.store_back(value.wrapping_sub(1));
            },
            _ => {},
        }
    }

    /// Runs a logic, arithmetic, compare or bit-test instruction.
    fn execute_alu_instruction(&mut self, instruction: Instruction)
        requires
            old(self)@.wf(),
        ensures
            final(self)@ == old(self)@.alu_instruction(instruction),
            final(self)@.wf(),
            final(self)@.cycles == old(self)@.cycles || final(self)@.cycles == wrap8(
                old(self)@.cycles + 1,
            ),
    {
        proof {
            reveal(Machine::alu_instruction);
        }
        match instruction {
            Instruction::AND => {
                let value = self.bus.read(self.absolute_address);
                self.load_a(self.a & value);
                self.pay_page_cross();
            },
            Instruction::ORA => {
                let value = self.bus.read(self.absolute_address);
                self.load_a(self.a | value);
                self.pay_page_cross();
            },
            Instruction::EOR => {
                let value = self.bus.read(self.absolute_address);
                self.load_a(self.a ^ value);
                self.pay_page_cross();
            },
            Instruction::CMP => self.compare(self.a),
            Instruction::CPX => self.compare(self.x),
            Instruction::CPY => self.compare(self.y),
            Instruction::ADC => self.add_with_carry(),
            Instruction::SBC => self.subtract_with_borrow(),
            Instruction::BIT => self.bit_test(),
            _ => {},
        }
    }

    /// Runs a conditional branch.
    fn execute_branch_instruction(&mut self, instruction: Instruction)
        requires
            old(self)@.wf(),
        ensures
            final(self)@ == old(self)@.branch_instruction(instruction),
            final(self)@.wf(),
            final(self)@.cycles == old(self)@.cycles || final(self)@.cycles == wrap8(
                old(self)@.cycles + 1,
            ),
    {
        proof {
            reveal(Machine::branch_instruction);
        }
        match instruction {
            Instruction::BCS => self.branch(self.get_status_flag(Flag::Carry)),
            Instruction::BCC => self.branch(!self.get_status_flag(Flag::Carry)),
            Instruction::BEQ => self.branch(self.get_status_flag(Flag::Zero)),
            Instruction::BNE => self.branch(!self.get_status_flag(Flag::Zero)),
            Instruction::BMI => self.branch(self.get_status_flag(Flag::Negative)),
            Instruction::BPL => self.branch(!self.get_status_flag(Flag::Negative)),
            Instruction::BVS => self.branch(self.get_status_flag(Flag::Overflow)),
            Instruction::BVC => self.branch(!self.get_status_flag(Flag::Overflow)),
            _ => {},
        }
    }

    /// Runs a shift or a rotation.
    fn execute_shift_instruction(
        &mut self,
        instruction: Instruction,
        addressing_mode: AddressingMode,
    )
        requires
            old(self)@.wf(),
        ensures
            final(self)@ == old(self)@.shift_instruction(instruction, addressing_mode),
            final(self)@.wf(),
            final(self)@.cycles == old(self)@.cycles || final(self)@.cycles == wrap8(
                old(self)@.cycles + 1,
            ),
    {
        proof {
            reveal(Machine::shift_instruction);
        }
        match instruction {
            Instruction::ASL => {
                let value = self.read_a_or_absolute(addressing_mode);
                proof {
                    lemma_shifts(value);
                }
                self.finish_shift(addressing_mode, self.is_negative(value), value << 1);
            },
            Instruction::LSR => {
                let value = self.read_a_or_absolute(addressing_mode);
                proof {
                    lemma_shifts(value);
                }
                self.finish_shift(addressing_mode, self.is_bit0_set(value), value >> 1);
            },
            Instruction::ROL => {
                let value = self.read_a_or_absolute(addressing_mode);
                let carry = self.get_status_flag(Flag::Carry);
                let old_carry: u8 = if carry {
                    1
                } else {
                    0
                };
                proof {
                    lemma_rotations(value, carry);
                }
                self.finish_shift(
                    addressing_mode,
                    self.is_negative(value),
                    (value << 1) | old_carry,
                );
            },
            Instruction::ROR => {
                let value = self.read_a_or_absolute(addressing_mode);
                let carry = self.get_status_flag(Flag::Carry);
                let old_carry: u8 = if carry {
                    0x80
                } else {
                    0
                };
                proof {
                    lemma_rotations(value, carry);
                }
                self.finish_shift(
                    addressing_mode,
                    self.is_bit0_set(value),
                    (value >> 1) | old_carry,
                );
            },
            _ => {},
        }
    }

    /// Runs a push or a pull.
    fn execute_stack_instruction(&mut self, instruction: Instruction)
        requires
            old(self)@.wf(),
        ensures
            final(self)@ == old(self)@.stack_instruction(instruction),
            final(self)@.wf(),
            final(self)@.cycles == old(self)@.cycles || final(self)@.cycles == wrap8(
                old(self)@.cycles + 1,
            ),
    {
        proof {
            reveal(Machine::stack_instruction);
        }
        match instruction {
            Instruction::PHA => {
                self.write_to_stack(self.a);
            },
            Instruction::PHP => {
                let status = self.status.with(Flag::Break).with(Flag::Unused);
                self.write_to_stack(status.bits());
            },
            Instruction::PLA => {
                let value = self.read_from_stack();
                self.load_a(value);
            },
            Instruction::PLP => self.pull_status(),
            _ => {},
        }
    }

    /// Runs a jump, a call, a return or a software interrupt.
    fn execute_jump_instruction(&mut self, instruction: Instruction)
        requires
            old(self)@.wf(),
        ensures
            final(self)@ == old(self)@.jump_instruction(instruction),
            final(self)@.wf(),
            final(self)@.cycles == old(self)@.cycles || final(self)@.cycles == wrap8(
                old(self)@.cycles + 1,
            ),
    {
        proof {
            reveal(Machine::jump_instruction);
        }
        match instruction {
            Instruction::JMP => {
                self.pc = self.absolute_address;
            },
            Instruction::JSR => self.call_subroutine(),
            Instruction::RTS => self.return_from_subroutine(),
            Instruction::RTI => self.return_from_interrupt(),
            Instruction::BRK => self.software_interrupt(),
            _ => {},
        }
    }

    /// Runs `instruction` on the operand that was found under
    /// `addressing_mode`.
    pub fn execute_instruction(&mut self, instruction: Instruction, addressing_mode: AddressingMode)
        requires
            old(self)@.wf(),
        ensures
            final(self)@ == old(self)@.executed(instruction, addressing_mode),
            final(self)@.wf(),
            final(self)@.cycles == old(self)@.cycles || final(self)@.cycles == wrap8(
                old(self)@.cycles + 1,
            ),
    {
        match instruction {
            Instruction::NOP
            | Instruction::CLC
            | Instruction::CLD
            | Instruction::CLI
            | Instruction::CLV
            | Instruction::SEC
            | Instruction::SED
            | Instruction::SEI => self.execute_flag_instruction(instruction),
            Instruction::TAX
            | Instruction::TAY
            | Instruction::TXA
            | Instruction::TYA
            | Instruction::TSX
            | Instruction::TXS
            | Instruction::INX
            | Instruction::INY
            | Instruction::DEX
            | Instruction::DEY => self.execute_register_instruction(instruction),
            Instruction::LDA
            | Instruction::LDX
            | Instruction::LDY
            | Instruction::STA
            | Instruction::STX
            | Instruction::STY
            | Instruction::INC
            | Instruction::DEC => self.execute_memory_instruction(instruction),
            Instruction::AND
            | Instruction::ORA
            | Instruction::EOR
            | Instruction::CMP
            | Instruction::CPX
            | Instruction::CPY
            | Instruction::ADC
            | Instruction::SBC
            | Instruction::BIT => self.execute_alu_instruction(instruction),
            Instruction::BCS
            | Instruction::BCC
            | Instruction::BEQ
            | Instruction::BNE
            | Instruction::BMI
            | Instruction::BPL
            | Instruction::BVS
            | Instruction::BVC => self.execute_branch_instruction(instruction),
            Instruction::ASL
            | Instruction::LSR
            | Instruction::ROL
            | Instruction::ROR => self.execute_shift_instruction(instruction, addressing_mode),
            Instruction::PHA
            | Instruction::PHP
            | Instruction::PLA
            | Instruction::PLP => self.execute_stack_instruction(instruction),
            Instruction::JMP
            | Instruction::JSR
            | Instruction::RTS
            | Instruction::RTI
            | Instruction::BRK => self.execute_jump_instruction(instruction),
        }
    }

    /// Puts `value` where the stack pointer points and moves the pointer
    /// down.
    pub fn write_to_stack(&mut self, value: u8)
        requires
            old(self)@.wf(),
        ensures
            final(self)@ == old(self)@.pushed(value),
            final(self)@.wf(),
    {
        self.bus.write(self.get_stack_address(), value);
        self.sp = self.sp.wrapping_sub(1);
    }

    /// Moves the stack pointer up and takes the byte that it then points to.
    pub fn read_from_stack(&mut self) -> (value: u8)
        requires
            old(self)@.wf(),
        ensures
            final(self)@ == old(self)@.pulled(),
            value == final(self)@.top(),
    {
        self.sp = self.sp.wrapping_add(1);
        self.bus.read(self.get_stack_address())
    }

    /// Whether `value` is zero.
    pub fn is_zero(&self, value: u8) -> (zero: bool)
        ensures
            zero == (value == 0),
    {
        value == 0x00
    }

    /// Whether bit 7 of `value` is set.
    pub fn is_negative(&self, value: u8) -> (negative: bool)
        ensures
            negative == is_negative(value),
    {
        proof {
            lemma_bit_tests(value);
        }
        value & 0x80 != 0
    }

    /// Whether bit 6 of `value` is set.
    pub fn is_overflow(&self, value: u8) -> (overflow: bool)
        ensures
            overflow == has_bit6(value),
    {
        value & 0x40 != 0
    }

    /// Whether bit 0 of `value` is set.
    pub fn is_bit0_set(&self, value: u8) -> (set: bool)
        ensures
            set == is_odd(value),
    {
        proof {
            lemma_bit_tests(value);
        }
        value & 0x01 != 0
    }

    /// Takes the zero flag and the negative flag from `value`.
    pub fn update_zero_negative_flags(&mut self, value: u8)
        ensures
            final(self)@ == old(self)@.zn(value),
    {
        self.set_status_flag(Flag::Zero, self.is_zero(value));
        self.set_status_flag(Flag::Negative, self.is_negative(value));
    }

    /// The word with high byte `hi` and low byte `lo`.
    pub fn get_bytes_to_address(&self, hi: u8, lo: u8) -> (address: u16)
        ensures
            address == word(hi, lo),
    {
        proof {
            lemma_word_from_bits(hi, lo);
        }
        ((hi as u16) << 8) | (lo as u16)
    }

    /// The address that the stack pointer points to.
    pub fn get_stack_address(&self) -> (address: u16)
        ensures
            address == self@.stack_address(),
            0x0100 <= address <= 0x01FF,
    {
        let sp = self.sp;
        assert(0x0100u16 | (sp as u16) == 0x0100u16 + (sp as u16)) by (bit_vector);
        STACK_POINTER_ADDRESS | self.sp as u16
    }

    /// The byte that a shift or rotation works on.
    pub fn read_a_or_absolute(&self, addressing_mode: AddressingMode) -> (value: u8)
        requires
            self@.wf(),
        ensures
            value == self@.target(addressing_mode),
    {
        match addressing_mode {
            AddressingMode::Accumulator => self.a,
            _ => self.bus.read(self.absolute_address),
        }
    }

    /// Puts `value` where a shift or rotation found its byte.
    pub fn write_a_or_absolute(&mut self, addressing_mode: AddressingMode, value: u8)
        requires
            old(self)@.wf(),
        ensures
            final(self)@ == old(self)@.target_is(addressing_mode, value),
            final(self)@.wf(),
    {
        match addressing_mode {
            AddressingMode::Accumulator => self.a = value,
            _ => self.bus.write(self.absolute_address, value),
        }
    }
}

} // verus!
