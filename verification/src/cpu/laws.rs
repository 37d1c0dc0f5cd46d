//! What holds of the machine whatever state it is in: how far the program
//! counter moves, where the flags come from, how addition and subtraction
//! undo each other, and that the stack gives back what was put on it.

use crate::cpu::arith::has_bit6;
use crate::cpu::arith::is_negative;
use crate::cpu::arith::lemma_bit_tests;
use crate::cpu::arith::lemma_wrap8_add;
use crate::cpu::arith::signed;
use crate::cpu::arith::wrap16;
use crate::cpu::arith::wrap8;
use crate::bus::cpu_bus::BusView;
use crate::bus::cpu_bus::IRQ_VECTOR_ADDRESS_HI;
use crate::bus::cpu_bus::IRQ_VECTOR_ADDRESS_LO;
use crate::bus::cpu_bus::RAM_ADDRESS_HI;
use crate::cpu::arith::high_byte;
use crate::cpu::arith::low_byte;
use crate::cpu::machine::pulled_status;
use crate::cpu::machine::pushed_status;
use crate::cpu::machine::STACK_POINTER_ADDRESS;
use crate::cpu::machine::Machine;
use crate::instructions::decoded;
use crate::instructions::AddressingMode;
use crate::instructions::Instruction;
use crate::instructions::Opcode;
use crate::status::has_flag;
use crate::status::lemma_flag_kept;
use crate::status::lemma_flag_written;
use crate::status::lemma_flags;
use crate::status::with_flag;
use crate::status::Flag;
use vstd::prelude::*;

verus! {

/// Taking zero and negative from a byte sets zero iff the byte is zero and
/// negative iff its bit 7 is set, and leaves the six other flags alone.
pub proof fn lemma_zn_flags(m: Machine, value: u8)
    ensures
        m.zn(value).flag(Flag::Zero) == (value == 0),
        m.zn(value).flag(Flag::Negative) == is_negative(value),
        forall|other: Flag|
            other != Flag::Zero && other != Flag::Negative ==> m.zn(value).flag(other) == m.flag(
                other,
            ),
{
    let first = with_flag(m.p, Flag::Zero, value == 0);
    lemma_flag_written(m.p, Flag::Zero, value == 0);
    lemma_flag_kept(first, Flag::Negative, is_negative(value), Flag::Zero);
    lemma_flag_written(first, Flag::Negative, is_negative(value));
    assert forall|other: Flag| other != Flag::Zero && other != Flag::Negative implies m.zn(
        value,
    ).flag(other) == m.flag(other) by {
        lemma_flag_kept(m.p, Flag::Zero, value == 0, other);
        lemma_flag_kept(first, Flag::Negative, is_negative(value), other);
    }
}

/// Finding the operand moves the program counter by the number of operand
/// bytes of the mode, which depends on nothing but the mode: none for
/// implied and accumulator, two for the modes with a 16-bit operand, one for
/// the others.
pub proof fn lemma_addressing_advances_pc(m: Machine, mode: AddressingMode)
    ensures
        m.addressed(mode).pc == wrap16(m.pc + mode.operand_bytes()),
        mode.operand_bytes() == match mode {
            AddressingMode::Implied | AddressingMode::Accumulator => 0u16,
            AddressingMode::Absolute
            | AddressingMode::AbsoluteX
            | AddressingMode::AbsoluteY
            | AddressingMode::Indirect => 2u16,
            _ => 1u16,
        },
{
}

/// The result that `instruction` takes the zero flag from, if it takes it
/// from a result at all.
pub open spec fn zero_source(m: Machine, instruction: Instruction, mode: AddressingMode) -> Option<
    u8,
> {
    match instruction {
        Instruction::TAX | Instruction::TAY => Some(m.a),
        Instruction::TXA => Some(m.x),
        Instruction::TYA => Some(m.y),
        Instruction::TSX => Some(m.sp),
        Instruction::INX => Some(wrap8(m.x + 1)),
        Instruction::INY => Some(wrap8(m.y + 1)),
        Instruction::DEX => Some(wrap8(m.x - 1)),
        Instruction::DEY => Some(wrap8(m.y - 1)),
        Instruction::LDA | Instruction::LDX | Instruction::LDY => Some(m.operand()),
        Instruction::AND | Instruction::BIT => Some(m.a & m.operand()),
        Instruction::ORA => Some(m.a | m.operand()),
        Instruction::EOR => Some(m.a ^ m.operand()),
        Instruction::CMP => Some(wrap8(m.a - m.operand())),
        Instruction::CPX => Some(wrap8(m.x - m.operand())),
        Instruction::CPY => Some(wrap8(m.y - m.operand())),
        Instruction::ADC => Some(wrap8(m.a + m.operand() + m.carry())),
        Instruction::SBC => Some(wrap8(m.a - m.operand() - (1 - m.carry()))),
        Instruction::ASL => Some(wrap8(m.target(mode) * 2)),
        Instruction::LSR => Some((m.target(mode) / 2) as u8),
        Instruction::ROL => Some(wrap8(m.target(mode) * 2 + m.carry())),
        Instruction::ROR => Some((m.target(mode) / 2 + 128 * m.carry()) as u8),
        Instruction::INC => Some(wrap8(m.operand() + 1)),
        Instruction::DEC => Some(wrap8(m.operand() - 1)),
        Instruction::PLA => Some(m.pulled().top()),
        _ => None,
    }
}

/// The result that `instruction` takes the negative flag from, if it takes it
/// from a result at all: the same as for the zero flag, but for the bit test,
/// which takes it from the operand.
pub open spec fn negative_source(
    m: Machine,
    instruction: Instruction,
    mode: AddressingMode,
) -> Option<u8> {
    if instruction == Instruction::BIT {
        Some(m.operand())
    } else {
        zero_source(m, instruction, mode)
    }
}

/// Whether `instruction` takes the whole status byte from the stack.
pub open spec fn restores_status(instruction: Instruction) -> bool {
    instruction == Instruction::PLP || instruction == Instruction::RTI
}

/// An instruction that takes the zero flag from a result sets it iff the
/// result is zero, and one that takes the negative flag from a result sets it
/// iff bit 7 of the result is set. An instruction that does neither, and does
/// not take the status byte from the stack, leaves both flags as they were.
pub proof fn lemma_zero_and_negative(m: Machine, instruction: Instruction, mode: AddressingMode)
    ensures
        zero_source(m, instruction, mode) matches Some(result) ==> m.executed(
            instruction,
            mode,
        ).flag(Flag::Zero) == (result == 0),
        negative_source(m, instruction, mode) matches Some(result) ==> m.executed(
            instruction,
            mode,
        ).flag(Flag::Negative) == (result & 0x80 != 0),
        zero_source(m, instruction, mode) is None && !restores_status(instruction) ==> {
            &&& m.executed(instruction, mode).flag(Flag::Zero) == m.flag(Flag::Zero)
            &&& m.executed(instruction, mode).flag(Flag::Negative) == m.flag(Flag::Negative)
        },
{
    reveal(Machine::flag_instruction);
    reveal(Machine::register_instruction);
    reveal(Machine::memory_instruction);
    reveal(Machine::alu_instruction);
    reveal(Machine::branch_instruction);
    reveal(Machine::shift_instruction);
    reveal(Machine::stack_instruction);
    reveal(Machine::jump_instruction);
    match negative_source(m, instruction, mode) {
        Some(result) => {
            lemma_bit_tests(result);
        },
        None => {},
    }
    match instruction {
        Instruction::TAX
        | Instruction::TAY
        | Instruction::TXA
        | Instruction::TYA
        | Instruction::TSX
        | Instruction::INX
        | Instruction::INY
        | Instruction::DEX
        | Instruction::DEY
        | Instruction::LDA
        | Instruction::LDX
        | Instruction::LDY
        | Instruction::AND
        | Instruction::ORA
        | Instruction::EOR
        | Instruction::INC
        | Instruction::DEC
        | Instruction::PLA
        | Instruction::CMP
        | Instruction::CPX
        | Instruction::CPY
        | Instruction::ADC
        | Instruction::SBC
        | Instruction::ASL
        | Instruction::LSR
        | Instruction::ROL
        | Instruction::ROR => {
            lemma_zn_anywhere();
        },
        Instruction::BIT => {
            let value = m.operand();
            let zero = m.a & value == 0;
            let first = with_flag(m.p, Flag::Zero, zero);
            let second = with_flag(first, Flag::Negative, is_negative(value));
            lemma_flag_written(m.p, Flag::Zero, zero);
            lemma_flag_kept(first, Flag::Negative, is_negative(value), Flag::Zero);
            lemma_flag_kept(second, Flag::Overflow, has_bit6(value), Flag::Zero);
            lemma_flag_written(first, Flag::Negative, is_negative(value));
            lemma_flag_kept(second, Flag::Overflow, has_bit6(value), Flag::Negative);
        },
        Instruction::PLP | Instruction::RTI => {},
        _ => {
            lemma_flags_kept_anywhere(Flag::Zero);
            lemma_flags_kept_anywhere(Flag::Negative);
        },
    }
}

/// Whatever the status byte, writing zero and then negative makes both read
/// back as written.
proof fn lemma_zn_anywhere()
    ensures
        forall|p: u8, zero: bool, negative: bool|
            {
                let after = #[trigger] with_flag(
                    with_flag(p, Flag::Zero, zero),
                    Flag::Negative,
                    negative,
                );
                has_flag(after, Flag::Zero) == zero && has_flag(after, Flag::Negative) == negative
            },
{
    assert forall|p: u8, zero: bool, negative: bool|
        {
            let after = #[trigger] with_flag(
                with_flag(p, Flag::Zero, zero),
                Flag::Negative,
                negative,
            );
            has_flag(after, Flag::Zero) == zero && has_flag(after, Flag::Negative) == negative
        } by {
        let first = with_flag(p, Flag::Zero, zero);
        lemma_flag_written(p, Flag::Zero, zero);
        lemma_flag_kept(first, Flag::Negative, negative, Flag::Zero);
        lemma_flag_written(first, Flag::Negative, negative);
    }
}

/// Switching any other flag leaves `kept` as it was, whatever the status
/// byte.
proof fn lemma_flags_kept_anywhere(kept: Flag)
    ensures
        forall|p: u8, flag: Flag, on: bool|
            flag != kept ==> has_flag(#[trigger] with_flag(p, flag, on), kept) == has_flag(
                p,
                kept,
            ),
{
    assert forall|p: u8, flag: Flag, on: bool| flag != kept implies has_flag(
        #[trigger] with_flag(p, flag, on),
        kept,
    ) == has_flag(p, kept) by {
        lemma_flag_kept(p, flag, on, kept);
    }
}

/// Whether `instruction` is one of the eight conditional branches.
pub open spec fn is_branch(instruction: Instruction) -> bool {
    match instruction {
        Instruction::BCC
        | Instruction::BCS
        | Instruction::BEQ
        | Instruction::BNE
        | Instruction::BMI
        | Instruction::BPL
        | Instruction::BVC
        | Instruction::BVS => true,
        _ => false,
    }
}

/// Whether `instruction` is a branch whose condition holds in state `m`.
pub open spec fn branch_taken(m: Machine, instruction: Instruction) -> bool {
    match instruction {
        Instruction::BCS => m.flag(Flag::Carry),
        Instruction::BCC => !m.flag(Flag::Carry),
        Instruction::BEQ => m.flag(Flag::Zero),
        Instruction::BNE => !m.flag(Flag::Zero),
        Instruction::BMI => m.flag(Flag::Negative),
        Instruction::BPL => !m.flag(Flag::Negative),
        Instruction::BVS => m.flag(Flag::Overflow),
        Instruction::BVC => !m.flag(Flag::Overflow),
        _ => false,
    }
}

/// Whether `instruction` sets the program counter whatever the flags say.
pub open spec fn is_jump(instruction: Instruction) -> bool {
    match instruction {
        Instruction::JMP
        | Instruction::JSR
        | Instruction::RTS
        | Instruction::RTI
        | Instruction::BRK => true,
        _ => false,
    }
}

/// The address behind the instruction of `opcode` that stands at the program
/// counter of `m`.
pub open spec fn next_instruction(m: Machine, opcode: Opcode) -> u16 {
    wrap16(m.pc + opcode.length())
}

/// Every branch in the opcode table takes a relative operand, so a branch is
/// two bytes long; and the instructions that take the program counter from
/// the stack or from the interrupt vector have no operand.
pub proof fn lemma_table_modes(byte: u8)
    ensures
        decoded(byte) matches Some(opcode) ==> {
            &&& is_branch(opcode.instruction) ==> opcode.addressing_mode
                == AddressingMode::Relative
            &&& opcode.instruction == Instruction::RTS || opcode.instruction == Instruction::RTI
                || opcode.instruction == Instruction::BRK ==> opcode.addressing_mode
                == AddressingMode::Implied
        },
{
    reveal(decoded);
}

/// Where running an instruction leaves the program counter, once the operand
/// has been found: a taken branch moves it by the signed distance, a jump
/// sets it to the operand's address or to the word that it pulls from the
/// stack, and every other instruction leaves it alone.
pub proof fn lemma_executed_pc(m: Machine, instruction: Instruction, mode: AddressingMode)
    ensures
        !is_jump(instruction) && !branch_taken(m, instruction) ==> m.executed(instruction, mode).pc
            == m.pc,
        branch_taken(m, instruction) ==> m.executed(instruction, mode).pc == wrap16(
            m.pc + m.relative_address,
        ),
        instruction == Instruction::JMP || instruction == Instruction::JSR ==> m.executed(
            instruction,
            mode,
        ).pc == m.absolute_address,
        instruction == Instruction::RTS ==> m.executed(instruction, mode).pc == wrap16(
            m.top_word() + 1,
        ),
        instruction == Instruction::RTI ==> m.executed(instruction, mode).pc
            == m.plp().top_word(),
        instruction == Instruction::BRK ==> m.executed(instruction, mode) == m.brk(),
{
    reveal(Machine::flag_instruction);
    reveal(Machine::register_instruction);
    reveal(Machine::memory_instruction);
    reveal(Machine::alu_instruction);
    reveal(Machine::branch_instruction);
    reveal(Machine::shift_instruction);
    reveal(Machine::stack_instruction);
    reveal(Machine::jump_instruction);
}

/// A push changes RAM alone: what is read outside the RAM window, the
/// program memory and the vectors with it, stays as it was. (Inside the
/// window it may change a byte far from page one, since the window shows the
/// RAM four times.)
pub proof fn lemma_push_keeps_program(m: Machine, value: u8, address: u16)
    requires
        address > RAM_ADDRESS_HI,
    ensures
        m.pushed(value).bus.peek(address) == m.bus.peek(address),
{
}

/// A software interrupt goes on at the address that the interrupt vector
/// held before it.
pub proof fn lemma_brk_pc(m: Machine)
    ensures
        m.brk().pc == m.vector(IRQ_VECTOR_ADDRESS_LO, IRQ_VECTOR_ADDRESS_HI),
{
    let hi = high_byte(wrap16(m.pc + 1));
    let lo = low_byte(wrap16(m.pc + 1));
    let first = m.pushed(hi);
    let second = first.pushed(lo);
    let status = pushed_status(m.p);
    lemma_push_keeps_program(m, hi, IRQ_VECTOR_ADDRESS_LO);
    lemma_push_keeps_program(m, hi, IRQ_VECTOR_ADDRESS_HI);
    lemma_push_keeps_program(first, lo, IRQ_VECTOR_ADDRESS_LO);
    lemma_push_keeps_program(first, lo, IRQ_VECTOR_ADDRESS_HI);
    lemma_push_keeps_program(second, status, IRQ_VECTOR_ADDRESS_LO);
    lemma_push_keeps_program(second, status, IRQ_VECTOR_ADDRESS_HI);
}

/// Where one tick leaves the program counter when it starts an instruction.
///
/// An instruction that is neither a jump nor a taken branch leaves it behind
/// itself: it has moved by one more than the number of operand bytes. A
/// taken branch leaves it at that address plus the operand byte read as a
/// signed distance, so it too ends behind itself iff the distance is zero.
/// A jump leaves it at the address that is its operand's, that it pulls
/// from the stack, or that the interrupt vector holds.
pub proof fn lemma_tick_moves_pc(m: Machine, opcode: Opcode)
    requires
        m.cycles == 0,
        decoded(m.fetch(0)) == Some(opcode),
    ensures
        !is_jump(opcode.instruction) && !branch_taken(m, opcode.instruction) ==> m.ticked().pc
            == next_instruction(m, opcode),
        branch_taken(m, opcode.instruction) ==> m.ticked().pc == wrap16(
            next_instruction(m, opcode) + signed(m.fetch(1)),
        ),
        branch_taken(m, opcode.instruction) ==> (m.ticked().pc == next_instruction(m, opcode)
            <==> m.fetch(1) == 0),
        opcode.instruction == Instruction::JMP || opcode.instruction == Instruction::JSR
            ==> m.ticked().pc == (Machine {
            pc: wrap16(m.pc + 1),
            cycles: opcode.cycles,
            ..m
        }).effective_address(opcode.addressing_mode),
        opcode.instruction == Instruction::RTS ==> m.ticked().pc == wrap16(m.top_word() + 1),
        opcode.instruction == Instruction::RTI ==> m.ticked().pc == m.plp().top_word(),
        opcode.instruction == Instruction::BRK ==> m.ticked().pc == m.vector(
            IRQ_VECTOR_ADDRESS_LO,
            IRQ_VECTOR_ADDRESS_HI,
        ),
{
    let instruction = opcode.instruction;
    let mode = opcode.addressing_mode;
    let fetched = Machine { pc: wrap16(m.pc + 1), cycles: opcode.cycles, ..m };
    let addressed = fetched.addressed(mode);
    lemma_table_modes(m.fetch(0));
    lemma_executed_pc(addressed, instruction, mode);
    assert(m.ticked().pc == addressed.executed(instruction, mode).pc);
    assert(addressed.pc == next_instruction(m, opcode));
    assert(branch_taken(addressed, instruction) == branch_taken(m, instruction));
    if is_branch(instruction) {
        assert(fetched.fetch(0) == m.fetch(1));
        assert(addressed.relative_address == signed(m.fetch(1)));
    }
    if instruction == Instruction::BRK {
        lemma_brk_pc(addressed);
    }
}

/// Whether `value` cannot be held by a signed byte.
pub open spec fn overflows(value: int) -> bool {
    value < -128 || value > 127
}

/// Addition with carry, by its flags: the accumulator takes the low eight
/// bits of `A + M + C`, carry is the ninth bit, and overflow is set iff the
/// sum of the operands read as signed numbers cannot be held by a signed
/// byte. The operand stays where it was.
pub proof fn lemma_adc_flags(m: Machine)
    ensures
        m.adc().a == wrap8(m.a + m.operand() + m.carry()),
        m.adc().flag(Flag::Carry) == (m.a + m.operand() + m.carry() > 255),
        m.adc().flag(Flag::Overflow) == overflows(signed(m.a) + signed(m.operand()) + m.carry()),
        m.adc().operand() == m.operand(),
{
    lemma_flags();
}

/// Subtraction with borrow, by its flags: the accumulator takes the low
/// eight bits of `A - M - (1 - C)`, carry is set iff that difference is not
/// negative, and overflow is set iff the difference of the operands read as
/// signed numbers cannot be held by a signed byte. The operand stays where
/// it was.
pub proof fn lemma_sbc_flags(m: Machine)
    ensures
        m.sbc().a == wrap8(m.a - m.operand() - (1 - m.carry())),
        m.sbc().flag(Flag::Carry) == (m.a - m.operand() - (1 - m.carry()) >= 0),
        m.sbc().flag(Flag::Overflow) == overflows(
            signed(m.a) - signed(m.operand()) - (1 - m.carry()),
        ),
        m.sbc().operand() == m.operand(),
{
    lemma_flags();
}

/// Adding an operand and then subtracting it again gives the accumulator
/// back, up to the carries: the result is `A + C + C' - 1` in eight bits,
/// where `C` is the carry before the addition and `C'` the carry that the
/// addition leaves. So the accumulator is restored iff exactly one of the
/// two carries is set.
pub proof fn lemma_adc_then_sbc(m: Machine)
    ensures
        m.adc().sbc().a == wrap8(m.a + m.carry() + m.adc().carry() - 1),
        m.adc().sbc().a == m.a <==> m.carry() + m.adc().carry() == 1,
{
    let added = m.adc();
    lemma_adc_flags(m);
    lemma_sbc_flags(added);
    lemma_add_then_subtract(m.a as int, m.operand() as int, m.carry(), added.carry());
}

/// The arithmetic of `lemma_adc_then_sbc`, on numbers: `carry_out` is the
/// carry that adding `operand` and `carry_in` to `a` leaves.
proof fn lemma_add_then_subtract(a: int, operand: int, carry_in: int, carry_out: int)
    requires
        0 <= a < 256,
        0 <= operand < 256,
        0 <= carry_in <= 1,
        carry_out == if a + operand + carry_in > 255 {
            1int
        } else {
            0int
        },
    ensures
        wrap8(wrap8(a + operand + carry_in) - operand - (1 - carry_out)) == wrap8(
            a + carry_in + carry_out - 1,
        ),
        wrap8(a + carry_in + carry_out - 1) == a <==> carry_in + carry_out == 1,
{
    lemma_wrap8_add(a + operand + carry_in, -operand - (1 - carry_out));
}

/// The address in page one that the stack pointer `sp` points to.
pub open spec fn stack_at(sp: u8) -> u16 {
    (STACK_POINTER_ADDRESS + sp) as u16
}

/// The state after the bytes of `values` have been pushed, the first one
/// first.
pub open spec fn pushed_all(m: Machine, values: Seq<u8>) -> Machine
    decreases values.len(),
{
    if values.len() == 0 {
        m
    } else {
        pushed_all(m, values.drop_last()).pushed(values.last())
    }
}

/// The state after `count` pulls.
pub open spec fn pulled_times(m: Machine, count: nat) -> Machine
    decreases count,
{
    if count == 0 {
        m
    } else {
        pulled_times(m.pulled(), (count - 1) as nat)
    }
}

/// The bytes that `count` pulls give, in the order in which they come.
pub open spec fn pulls(m: Machine, count: nat) -> Seq<u8>
    decreases count,
{
    if count == 0 {
        Seq::empty()
    } else {
        seq![m.pulled().top()] + pulls(m.pulled(), (count - 1) as nat)
    }
}

/// Two stack pointers that lie fewer than 256 steps apart are different.
proof fn lemma_stack_cells_differ(sp: u8, near: int, far: int)
    requires
        0 < far - near < 256,
    ensures
        wrap8(sp - near) != wrap8(sp - far),
{
    let a = sp - near;
    let b = sp - far;
    if a % 256 == b % 256 {
        vstd::arithmetic::div_mod::lemma_fundamental_div_mod(a, 256);
        vstd::arithmetic::div_mod::lemma_fundamental_div_mod(b, 256);
        assert(a - b == 256 * (a / 256) - 256 * (b / 256));
        assert(false);
    }
}

/// A push puts its byte where the stack pointer pointed and leaves the rest
/// of page one as it was.
proof fn lemma_push_in_page_one(m: Machine, value: u8, sp: u8)
    requires
        m.wf(),
    ensures
        m.pushed(value).wf(),
        m.pushed(value) == (Machine { sp: wrap8(m.sp - 1), bus: m.pushed(value).bus, ..m }),
        m.pushed(value).bus.peek(stack_at(sp)) == if sp == m.sp {
            value
        } else {
            m.bus.peek(stack_at(sp))
        },
{
}

/// What pushing leaves: the stack pointer has moved down by the number of
/// bytes, wrapping within its eight bits; nothing else in the processor has
/// changed; and each byte stands where the pointer pointed when it was
/// pushed, unless 256 or more pushes came after it.
pub proof fn lemma_pushed_all(m: Machine, values: Seq<u8>)
    requires
        m.wf(),
    ensures
        pushed_all(m, values).wf(),
        pushed_all(m, values) == (Machine {
            sp: wrap8(m.sp - values.len()),
            bus: pushed_all(m, values).bus,
            ..m
        }),
        forall|i: int|
            0 <= i < values.len() && values.len() - i <= 256 ==> pushed_all(m, values).bus.peek(
                #[trigger] stack_at(wrap8(m.sp - i)),
            ) == values[i],
    decreases values.len(),
{
    if values.len() > 0 {
        let earlier = values.drop_last();
        let last = earlier.len() as int;
        let before = pushed_all(m, earlier);
        lemma_pushed_all(m, earlier);
        let after = before.pushed(values.last());
        assert(before.sp == wrap8(m.sp - last));
        assert(wrap8(before.sp - 1) == wrap8(m.sp - values.len())) by {
            lemma_wrap8_add(m.sp - last, -1);
        }
        assert forall|i: int| 0 <= i < values.len() && values.len() - i <= 256 implies
            after.bus.peek(#[trigger] stack_at(wrap8(m.sp - i))) == values[i] by {
            lemma_push_in_page_one(before, values.last(), wrap8(m.sp - i));
            if i < last {
                lemma_stack_cells_differ(m.sp, i, last);
                assert(values[i] == earlier[i]);
            }
        }
        lemma_push_in_page_one(before, values.last(), before.sp);
    }
}

/// What pulling leaves: the stack pointer has moved up by the number of
/// pulls, wrapping within its eight bits, and nothing else has changed; the
/// bytes that come are those above the pointer, nearest first.
pub proof fn lemma_pulls(m: Machine, count: nat)
    ensures
        pulled_times(m, count) == (Machine { sp: wrap8(m.sp + count), ..m }),
        pulls(m, count).len() == count,
        forall|j: int|
            0 <= j < count ==> #[trigger] pulls(m, count)[j] == m.bus.peek(
                stack_at(wrap8(m.sp + j + 1)),
            ),
    decreases count,
{
    if count > 0 {
        let rest = (count - 1) as nat;
        lemma_pulls(m.pulled(), rest);
        assert forall|j: int| 0 <= j < count implies #[trigger] pulls(m, count)[j] == m.bus.peek(
            stack_at(wrap8(m.sp + j + 1)),
        ) by {
            if j > 0 {
                assert(pulls(m, count)[j] == pulls(m.pulled(), rest)[j - 1]);
                assert(wrap8(m.pulled().sp + (j - 1) + 1) == wrap8(m.sp + j + 1));
            }
        }
    }
}

/// Pushes followed by as many pulls put the stack pointer back where it
/// was, also where it wrapped on the way, and change nothing in the
/// processor. Up to 256 bytes come back, the last one pushed first; of more
/// than 256 the first ones have been written over.
pub proof fn lemma_stack_round_trip(m: Machine, values: Seq<u8>)
    requires
        m.wf(),
    ensures
        pulled_times(pushed_all(m, values), values.len()) == (Machine {
            bus: pushed_all(m, values).bus,
            ..m
        }),
        values.len() <= 256 ==> pulls(pushed_all(m, values), values.len()) == values.reverse(),
{
    let count = values.len();
    let full = pushed_all(m, values);
    lemma_pushed_all(m, values);
    lemma_pulls(full, count);
    assert(full.sp == wrap8(m.sp - count));
    assert(wrap8(full.sp + count) == m.sp) by {
        lemma_wrap8_add(m.sp - count, count as int);
    }
    if count <= 256 {
        let back = pulls(full, count);
        assert forall|j: int| 0 <= j < count implies back[j] == values.reverse()[j] by {
            let i = count - 1 - j;
            assert(wrap8(full.sp + j + 1) == wrap8(m.sp - i)) by {
                lemma_wrap8_add(m.sp - count, j + 1);
            }
            assert(full.bus.peek(stack_at(wrap8(m.sp - i))) == values[i]);
        }
        assert(back =~= values.reverse());
    }
}

/// The unused bit is set when the processor is switched on and after a
/// reset, and it is set in every status byte that an instruction puts on the
/// stack or takes from it.
pub proof fn lemma_unused_is_set(bus: BusView, m: Machine, p: u8)
    ensures
        Machine::power_on(bus).flag(Flag::Unused),
        m.reset().flag(Flag::Unused),
        has_flag(pushed_status(p), Flag::Unused),
        has_flag(pulled_status(p), Flag::Unused),
        !has_flag(pulled_status(p), Flag::Break),
{
    lemma_flags();
}

/// Once set, the unused bit stays set: no instruction, no tick of the clock
/// and no interrupt clears it.
pub proof fn lemma_unused_stays_set(m: Machine, instruction: Instruction, mode: AddressingMode)
    requires
        m.flag(Flag::Unused),
    ensures
        m.addressed(mode).flag(Flag::Unused),
        m.executed(instruction, mode).flag(Flag::Unused),
        m.ticked().flag(Flag::Unused),
        m.irq().flag(Flag::Unused),
        m.nmi().flag(Flag::Unused),
{
    lemma_flags();
    lemma_executed_keeps_unused(m, instruction, mode);
    if m.cycles == 0 {
        match decoded(m.fetch(0)) {
            Some(opcode) => {
                let found = (Machine {
                    pc: wrap16(m.pc + 1),
                    cycles: opcode.cycles,
                    ..m
                }).addressed(opcode.addressing_mode);
                lemma_executed_keeps_unused(found, opcode.instruction, opcode.addressing_mode);
            },
            None => {},
        }
    }
}

/// No instruction of this family clears the unused bit.
proof fn lemma_flag_instruction_keeps_unused(m: Machine, instruction: Instruction)
    requires
        m.flag(Flag::Unused),
    ensures
        m.flag_instruction(instruction).flag(Flag::Unused),
{
    reveal(Machine::flag_instruction);
    lemma_flags_kept_anywhere(Flag::Unused);
}

/// No instruction of this family clears the unused bit.
proof fn lemma_register_instruction_keeps_unused(m: Machine, instruction: Instruction)
    requires
        m.flag(Flag::Unused),
    ensures
        m.register_instruction(instruction).flag(Flag::Unused),
{
    reveal(Machine::register_instruction);
    lemma_flags_kept_anywhere(Flag::Unused);
}

/// No instruction of this family clears the unused bit.
proof fn lemma_memory_instruction_keeps_unused(m: Machine, instruction: Instruction)
    requires
        m.flag(Flag::Unused),
    ensures
        m.memory_instruction(instruction).flag(Flag::Unused),
{
    reveal(Machine::memory_instruction);
    lemma_flags_kept_anywhere(Flag::Unused);
}

/// No instruction of this family clears the unused bit.
proof fn lemma_alu_instruction_keeps_unused(m: Machine, instruction: Instruction)
    requires
        m.flag(Flag::Unused),
    ensures
        m.alu_instruction(instruction).flag(Flag::Unused),
{
    reveal(Machine::alu_instruction);
    lemma_flags_kept_anywhere(Flag::Unused);
}

/// No instruction of this family clears the unused bit.
proof fn lemma_branch_instruction_keeps_unused(m: Machine, instruction: Instruction)
    requires
        m.flag(Flag::Unused),
    ensures
        m.branch_instruction(instruction).flag(Flag::Unused),
{
    reveal(Machine::branch_instruction);
    lemma_flags_kept_anywhere(Flag::Unused);
}

/// No instruction of this family clears the unused bit.
proof fn lemma_shift_instruction_keeps_unused(
    m: Machine,
    instruction: Instruction,
    mode: AddressingMode,
)
    requires
        m.flag(Flag::Unused),
    ensures
        m.shift_instruction(instruction, mode).flag(Flag::Unused),
{
    reveal(Machine::shift_instruction);
    lemma_flags_kept_anywhere(Flag::Unused);
}

/// No instruction of this family clears the unused bit.
proof fn lemma_stack_instruction_keeps_unused(m: Machine, instruction: Instruction)
    requires
        m.flag(Flag::Unused),
    ensures
        m.stack_instruction(instruction).flag(Flag::Unused),
{
    reveal(Machine::stack_instruction);
    lemma_flags_kept_anywhere(Flag::Unused);
    lemma_flag_written(with_flag(m.pulled().top(), Flag::Break, false), Flag::Unused, true);
}

/// No instruction of this family clears the unused bit.
proof fn lemma_jump_instruction_keeps_unused(m: Machine, instruction: Instruction)
    requires
        m.flag(Flag::Unused),
    ensures
        m.jump_instruction(instruction).flag(Flag::Unused),
{
    reveal(Machine::jump_instruction);
    lemma_flags_kept_anywhere(Flag::Unused);
    lemma_flag_written(with_flag(m.pulled().top(), Flag::Break, false), Flag::Unused, true);
}

/// No instruction clears the unused bit.
proof fn lemma_executed_keeps_unused(m: Machine, instruction: Instruction, mode: AddressingMode)
    requires
        m.flag(Flag::Unused),
    ensures
        m.executed(instruction, mode).flag(Flag::Unused),
{
    lemma_flag_instruction_keeps_unused(m, instruction);
    lemma_register_instruction_keeps_unused(m, instruction);
    lemma_memory_instruction_keeps_unused(m, instruction);
    lemma_alu_instruction_keeps_unused(m, instruction);
    lemma_branch_instruction_keeps_unused(m, instruction);
    lemma_shift_instruction_keeps_unused(m, instruction, mode);
    lemma_stack_instruction_keeps_unused(m, instruction);
    lemma_jump_instruction_keeps_unused(m, instruction);
}

} // verus!
