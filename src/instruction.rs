//! The MOS 6507 instructions.
//!
//! Each instruction is a function of the console and of its opcode, called
//! once the opcode has been fetched; it consumes its operand bytes, runs,
//! and returns the number of cycles it took. Its contract is the meaning
//! that `Machine::execute` gives the opcode.
use vstd::prelude::*;
use crate::addressing_mode::{
    absolute, absolute_x, absolute_y, immediate, indexed_indirect, indirect_indexed, relative,
    zero_page, zero_page_x, zero_page_y,
};
use crate::console::Console;
use crate::cpu::{Mode, in_memory, mode_of, wrap8};

verus! {

/// Increment a byte, wrapping from 255 to 0.
pub fn increment_byte(value: &mut u8)
    ensures
        *final(value) == wrap8(*old(value) + 1),
{
    *value = if *value == 255 { 0 } else { *value + 1 };
}

/// Decrement a byte, wrapping from 0 to 255.
pub fn decrement_byte(value: &mut u8)
    ensures
        *final(value) == wrap8(*old(value) - 1),
{
    *value = if *value == 0 { 255 } else { *value - 1 };
}

/// Set the zero flag when `value` is 0 and the negative flag when its bit 7 is set.
pub fn update_zero_and_negative_flags(value: u8, zero_flag: &mut bool, negative_flag: &mut bool)
    ensures
        *final(zero_flag) == (value == 0),
        *final(negative_flag) == (value >= 128),
{
    *zero_flag = value == 0;
    *negative_flag = value > 127;
}

/// Copy `source` into `destination`.
pub fn transfer_byte(source: u8, destination: &mut u8)
    ensures
        *final(destination) == source,
{
    *destination = source;
}

/// Shift a byte one bit to the left: `bit_in` enters at bit 0 and bit 7
/// leaves into `bit_out`.
pub fn shift_left(value: &mut u8, bit_in: bool, bit_out: &mut bool)
    ensures
        *final(bit_out) == (*old(value) >= 128),
        *final(value) == wrap8(*old(value) * 2 + if bit_in { 1int } else { 0int }),
{
    *bit_out = *value >= 128;
    let shifted: u16 = *value as u16 * 2 + if bit_in { 1 } else { 0 };
    *value = (shifted % 256) as u8;
}

/// Shift a byte one bit to the right: `bit_in` enters at bit 7 and bit 0
/// leaves into `bit_out`.
pub fn shift_right(value: &mut u8, bit_in: bool, bit_out: &mut bool)
    ensures
        *final(bit_out) == (*old(value) % 2 == 1),
        *final(value) == (*old(value) / 2 + if bit_in { 128int } else { 0int }) as u8,
{
    *bit_out = *value % 2 == 1;
    *value = *value / 2 + if bit_in { 128 } else { 0 };
}

/// The addressing mode of an opcode.
pub fn addressing_mode_of(op: u8) -> (r: Mode)
    ensures
        r == mode_of(op),
{
    match op {
        0x69 | 0x29 | 0xC9 | 0x49 | 0xA9 | 0x09 | 0xE9 | 0xA2 | 0xA0 | 0xE0 | 0xC0 => Mode::Immediate,
        0x65 | 0x25 | 0xC5 | 0x45 | 0xA5 | 0x05 | 0xE5 | 0xA6 | 0xA4 | 0xE4 | 0xC4 | 0x24 | 0x06
        | 0x46 | 0x26 | 0x66 | 0xC6 | 0xE6 | 0x85 | 0x86 | 0x84 => Mode::ZeroPage,
        0x75 | 0x35 | 0xD5 | 0x55 | 0xB5 | 0x15 | 0xF5 | 0xB4 | 0x16 | 0x56 | 0x36 | 0x76 | 0xD6
        | 0xF6 | 0x95 | 0x94 => Mode::ZeroPageX,
        0xB6 | 0x96 => Mode::ZeroPageY,
        0x6D | 0x2D | 0xCD | 0x4D | 0xAD | 0x0D | 0xED | 0xAE | 0xAC | 0xEC | 0xCC | 0x2C | 0x0E
        | 0x4E | 0x2E | 0x6E | 0xCE | 0xEE | 0x8D | 0x8E | 0x8C | 0x4C | 0x6C | 0x20 => Mode::Absolute,
        0x7D | 0x3D | 0xDD | 0x5D | 0xBD | 0x1D | 0xFD | 0xBC | 0x1E | 0x5E | 0x3E | 0x7E | 0xDE
        | 0xFE | 0x9D => Mode::AbsoluteX,
        0x79 | 0x39 | 0xD9 | 0x59 | 0xB9 | 0x19 | 0xF9 | 0xBE | 0x99 => Mode::AbsoluteY,
        0x61 | 0x21 | 0xC1 | 0x41 | 0xA1 | 0x01 | 0xE1 | 0x81 => Mode::IndexedIndirect,
        0x71 | 0x31 | 0xD1 | 0x51 | 0xB1 | 0x11 | 0xF1 | 0x91 => Mode::IndirectIndexed,
        0x0A | 0x4A | 0x2A | 0x6A => Mode::Accumulator,
        _ => Mode::Implied,
    }
}

/// The effective address of the operand in `mode`, and whether indexing
/// crossed a page.
fn operand_address(console: &mut Console, mode: Mode) -> (r: (u16, bool))
    requires
        old(console).wf(),
        in_memory(mode),
    ensures
        final(console).wf(),
        (r.0, r.1, final(console).machine()) == old(console).machine().operand(mode),
        final(console).same_outside(old(console)),
{
    match mode {
        Mode::Immediate => (immediate(console), false),
        Mode::ZeroPage => (zero_page(console), false),
        Mode::ZeroPageX => (zero_page_x(console), false),
        Mode::ZeroPageY => (zero_page_y(console), false),
        Mode::Absolute => (absolute(console), false),
        Mode::AbsoluteX => absolute_x(console),
        Mode::AbsoluteY => absolute_y(console),
        Mode::IndexedIndirect => (indexed_indirect(console), false),
        _ => indirect_indexed(console),
    }
}

/// The value of the operand in `mode`, and whether indexing crossed a page.
fn load(console: &mut Console, mode: Mode) -> (r: (u8, bool))
    requires
        old(console).wf(),
        in_memory(mode),
    ensures
        final(console).wf(),
        (r.0, r.1, final(console).machine()) == old(console).machine().load(mode),
        final(console).same_outside(old(console)),
{
    let (index, cross) = operand_address(console, mode);
    (console.read(index), cross)
}

/// Cycles of an instruction that reads its operand.
fn read_cycles(mode: Mode, cross: bool) -> (r: u32)
    ensures
        r == crate::cpu::read_cycles(mode, cross),
{
    let extra: u32 = if cross { 1 } else { 0 };
    match mode {
        Mode::Immediate => 2,
        Mode::ZeroPage => 3,
        Mode::ZeroPageX | Mode::ZeroPageY | Mode::Absolute => 4,
        Mode::AbsoluteX | Mode::AbsoluteY => 4 + extra,
        Mode::IndexedIndirect => 6,
        Mode::IndirectIndexed => 5 + extra,
        _ => 2,
    }
}

/// Cycles of a read-modify-write instruction.
fn modify_cycles(mode: Mode) -> (r: u32)
    ensures
        r == crate::cpu::modify_cycles(mode),
{
    match mode {
        Mode::ZeroPage => 5,
        Mode::ZeroPageX | Mode::Absolute => 6,
        Mode::AbsoluteX => 7,
        _ => 2,
    }
}

/// Cycles of a store instruction.
fn store_cycles(mode: Mode) -> (r: u32)
    ensures
        r == crate::cpu::store_cycles(mode),
{
    match mode {
        Mode::ZeroPage => 3,
        Mode::ZeroPageX | Mode::ZeroPageY | Mode::Absolute => 4,
        Mode::AbsoluteX | Mode::AbsoluteY => 5,
        _ => 6,
    }
}

/// A + `value` + C into A, with the carry, overflow, zero and negative flags.
fn add_to_accumulator(console: &mut Console, value: u8)
    ensures
        final(console).regs() == crate::cpu::add_with_carry(old(console).regs(), value),
        final(console).bus == old(console).bus,
        final(console).same_outside(old(console)),
{
    let a = console.accumulator;
    let sum: u16 = a as u16 + value as u16 + if console.carry_flag { 1 } else { 0 };
    let result = (sum % 256) as u8;
    console.overflow_flag = (a >= 128) == (value >= 128) && (result >= 128) != (a >= 128);
    console.carry_flag = sum >= 256;
    console.accumulator = result;
    update_zero_and_negative_flags(result, &mut console.zero_flag, &mut console.negative_flag);
}

/// Compare `register` with `value`: carry when it is greater or equal, zero
/// and negative from the difference.
fn compare(console: &mut Console, register: u8, value: u8)
    ensures
        final(console).regs() == crate::cpu::compare(old(console).regs(), register, value),
        final(console).bus == old(console).bus,
        final(console).same_outside(old(console)),
{
    console.carry_flag = register >= value;
    let difference: u8 = if register >= value { register - value } else { (256 - value as u16 + register as u16) as u8 };
    update_zero_and_negative_flags(difference, &mut console.zero_flag, &mut console.negative_flag);
}

/// A conditional branch on `condition`.
fn branch(console: &mut Console, condition: bool) -> (r: u32)
    requires
        old(console).wf(),
    ensures
        final(console).wf(),
        (final(console).machine(), r) == old(console).machine().branch(condition),
        final(console).same_outside(old(console)),
{
    let offset = relative(console);
    if condition {
        let pc = console.pointer_counter;
        let target = ((pc as i32 + offset as i32 + 65536) % 65536) as u16;
        console.pointer_counter = target;
        if target / 256 == pc / 256 {
            3
        } else {
            4
        }
    } else {
        2
    }
}

/// ADC: add the operand and the carry to the accumulator.
pub fn adc_instruction(console: &mut Console, opcode: u8) -> (r: u32)
    requires
        old(console).wf(),
        matches!(opcode, 0x69 | 0x65 | 0x75 | 0x6D | 0x7D | 0x79 | 0x61 | 0x71),
    ensures
        final(console).wf(),
        (final(console).machine(), r) == old(console).machine().execute(opcode),
        final(console).same_outside(old(console)),
{
    let mode = addressing_mode_of(opcode);
    let (value, cross) = load(console, mode);
    add_to_accumulator(console, value);
    read_cycles(mode, cross)
}

/// AND: bitwise and of the operand into the accumulator.
pub fn and_instruction(console: &mut Console, opcode: u8) -> (r: u32)
    requires
        old(console).wf(),
        matches!(opcode, 0x29 | 0x25 | 0x35 | 0x2D | 0x3D | 0x39 | 0x21 | 0x31),
    ensures
        final(console).wf(),
        (final(console).machine(), r) == old(console).machine().execute(opcode),
        final(console).same_outside(old(console)),
{
    let mode = addressing_mode_of(opcode);
    let (value, cross) = load(console, mode);
    console.accumulator = console.accumulator & value;
    update_zero_and_negative_flags(console.accumulator, &mut console.zero_flag, &mut console.negative_flag);
    read_cycles(mode, cross)
}

/// ASL: shift the accumulator or the operand left; bit 7 goes to the carry.
pub fn asl_instruction(console: &mut Console, opcode: u8) -> (r: u32)
    requires
        old(console).wf(),
        matches!(opcode, 0x0A | 0x06 | 0x16 | 0x0E | 0x1E),
    ensures
        final(console).wf(),
        (final(console).machine(), r) == old(console).machine().execute(opcode),
        final(console).same_outside(old(console)),
{
    let mode = addressing_mode_of(opcode);
    modify(console, mode, crate::cpu::Modify::ShiftLeft)
}

/// BCC: branch when the carry is clear.
pub fn bcc_instruction(console: &mut Console, opcode: u8) -> (r: u32)
    requires
        old(console).wf(),
        opcode == 0x90,
    ensures
        final(console).wf(),
        (final(console).machine(), r) == old(console).machine().execute(opcode),
        final(console).same_outside(old(console)),
{
    let condition = !console.carry_flag;
    branch(console, condition)
}

/// BCS: branch when the carry is set.
pub fn bcs_instruction(console: &mut Console, opcode: u8) -> (r: u32)
    requires
        old(console).wf(),
        opcode == 0xB0,
    ensures
        final(console).wf(),
        (final(console).machine(), r) == old(console).machine().execute(opcode),
        final(console).same_outside(old(console)),
{
    let condition = console.carry_flag;
    branch(console, condition)
}

/// BEQ: branch when the zero flag is set.
pub fn beq_instruction(console: &mut Console, opcode: u8) -> (r: u32)
    requires
        old(console).wf(),
        opcode == 0xF0,
    ensures
        final(console).wf(),
        (final(console).machine(), r) == old(console).machine().execute(opcode),
        final(console).same_outside(old(console)),
{
    let condition = console.zero_flag;
    branch(console, condition)
}

/// BMI: branch when the negative flag is set.
pub fn bmi_instruction(console: &mut Console, opcode: u8) -> (r: u32)
    requires
        old(console).wf(),
        opcode == 0x30,
    ensures
        final(console).wf(),
        (final(console).machine(), r) == old(console).machine().execute(opcode),
        final(console).same_outside(old(console)),
{
    let condition = console.negative_flag;
    branch(console, condition)
}

/// BNE: branch when the zero flag is clear.
pub fn bne_instruction(console: &mut Console, opcode: u8) -> (r: u32)
    requires
        old(console).wf(),
        opcode == 0xD0,
    ensures
        final(console).wf(),
        (final(console).machine(), r) == old(console).machine().execute(opcode),
        final(console).same_outside(old(console)),
{
    let condition = !console.zero_flag;
    branch(console, condition)
}

/// BPL: branch when the negative flag is clear.
pub fn bpl_instruction(console: &mut Console, opcode: u8) -> (r: u32)
    requires
        old(console).wf(),
        opcode == 0x10,
    ensures
        final(console).wf(),
        (final(console).machine(), r) == old(console).machine().execute(opcode),
        final(console).same_outside(old(console)),
{
    let condition = !console.negative_flag;
    branch(console, condition)
}

/// BVC: branch when the overflow flag is clear.
pub fn bvc_instruction(console: &mut Console, opcode: u8) -> (r: u32)
    requires
        old(console).wf(),
        opcode == 0x50,
    ensures
        final(console).wf(),
        (final(console).machine(), r) == old(console).machine().execute(opcode),
        final(console).same_outside(old(console)),
{
    let condition = !console.overflow_flag;
    branch(console, condition)
}

/// BVS: branch when the overflow flag is set.
pub fn bvs_instruction(console: &mut Console, opcode: u8) -> (r: u32)
    requires
        old(console).wf(),
        opcode == 0x70,
    ensures
        final(console).wf(),
        (final(console).machine(), r) == old(console).machine().execute(opcode),
        final(console).same_outside(old(console)),
{
    let condition = console.overflow_flag;
    branch(console, condition)
}

/// BIT: test the operand's bits 7 and 6 and its and with the accumulator.
pub fn bit_instruction(console: &mut Console, opcode: u8) -> (r: u32)
    requires
        old(console).wf(),
        matches!(opcode, 0x24 | 0x2C),
    ensures
        final(console).wf(),
        (final(console).machine(), r) == old(console).machine().execute(opcode),
        final(console).same_outside(old(console)),
{
    let mode = addressing_mode_of(opcode);
    let (value, cross) = load(console, mode);
    console.negative_flag = value >= 128;
    console.overflow_flag = value & 0x40 != 0;
    console.zero_flag = console.accumulator & value == 0;
    read_cycles(mode, cross)
}

/// BRK: interrupts are outside this emulation; it does nothing and takes no cycle.
pub fn brk_instruction(console: &mut Console, opcode: u8) -> (r: u32)
    requires
        old(console).wf(),
        opcode == 0x00,
    ensures
        final(console).wf(),
        (final(console).machine(), r) == old(console).machine().execute(opcode),
        final(console).same_outside(old(console)),
{
    0
}

/// CLC: clear the carry flag.
pub fn clc_instruction(console: &mut Console, opcode: u8) -> (r: u32)
    requires
        old(console).wf(),
        opcode == 0x18,
    ensures
        final(console).wf(),
        (final(console).machine(), r) == old(console).machine().execute(opcode),
        final(console).same_outside(old(console)),
{
    console.carry_flag = false;
    2
}

/// CLD: clear the decimal flag.
pub fn cld_instruction(console: &mut Console, opcode: u8) -> (r: u32)
    requires
        old(console).wf(),
        opcode == 0xD8,
    ensures
        final(console).wf(),
        (final(console).machine(), r) == old(console).machine().execute(opcode),
        final(console).same_outside(old(console)),
{
    console.decimal_flag = false;
    2
}

/// CLI: clear the interrupt flag.
pub fn cli_instruction(console: &mut Console, opcode: u8) -> (r: u32)
    requires
        old(console).wf(),
        opcode == 0x58,
    ensures
        final(console).wf(),
        (final(console).machine(), r) == old(console).machine().execute(opcode),
        final(console).same_outside(old(console)),
{
    console.interrupt_flag = false;
    2
}

/// CLV: clear the overflow flag.
pub fn clv_instruction(console: &mut Console, opcode: u8) -> (r: u32)
    requires
        old(console).wf(),
        opcode == 0xB8,
    ensures
        final(console).wf(),
        (final(console).machine(), r) == old(console).machine().execute(opcode),
        final(console).same_outside(old(console)),
{
    console.overflow_flag = false;
    2
}

/// SEC: set the carry flag.
pub fn sec_instruction(console: &mut Console, opcode: u8) -> (r: u32)
    requires
        old(console).wf(),
        opcode == 0x38,
    ensures
        final(console).wf(),
        (final(console).machine(), r) == old(console).machine().execute(opcode),
        final(console).same_outside(old(console)),
{
    console.carry_flag = true;
    2
}

/// SED: set the decimal flag.
pub fn sed_instruction(console: &mut Console, opcode: u8) -> (r: u32)
    requires
        old(console).wf(),
        opcode == 0xF8,
    ensures
        final(console).wf(),
        (final(console).machine(), r) == old(console).machine().execute(opcode),
        final(console).same_outside(old(console)),
{
    console.decimal_flag = true;
    2
}

/// SEI: set the interrupt flag.
pub fn sei_instruction(console: &mut Console, opcode: u8) -> (r: u32)
    requires
        old(console).wf(),
        opcode == 0x78,
    ensures
        final(console).wf(),
        (final(console).machine(), r) == old(console).machine().execute(opcode),
        final(console).same_outside(old(console)),
{
    console.interrupt_flag = true;
    2
}

/// CMP: compare the accumulator with the operand.
pub fn cmp_instruction(console: &mut Console, opcode: u8) -> (r: u32)
    requires
        old(console).wf(),
        matches!(opcode, 0xC9 | 0xC5 | 0xD5 | 0xCD | 0xDD | 0xD9 | 0xC1 | 0xD1),
    ensures
        final(console).wf(),
        (final(console).machine(), r) == old(console).machine().execute(opcode),
        final(console).same_outside(old(console)),
{
    let mode = addressing_mode_of(opcode);
    let (value, cross) = load(console, mode);
    let a = console.accumulator;
    compare(console, a, value);
    read_cycles(mode, cross)
}

/// CPX: compare X with the operand.
pub fn cpx_instruction(console: &mut Console, opcode: u8) -> (r: u32)
    requires
        old(console).wf(),
        matches!(opcode, 0xE0 | 0xE4 | 0xEC),
    ensures
        final(console).wf(),
        (final(console).machine(), r) == old(console).machine().execute(opcode),
        final(console).same_outside(old(console)),
{
    let mode = addressing_mode_of(opcode);
    let (value, cross) = load(console, mode);
    let x = console.x_register;
    compare(console, x, value);
    read_cycles(mode, cross)
}

/// CPY: compare Y with the operand.
pub fn cpy_instruction(console: &mut Console, opcode: u8) -> (r: u32)
    requires
        old(console).wf(),
        matches!(opcode, 0xC0 | 0xC4 | 0xCC),
    ensures
        final(console).wf(),
        (final(console).machine(), r) == old(console).machine().execute(opcode),
        final(console).same_outside(old(console)),
{
    let mode = addressing_mode_of(opcode);
    let (value, cross) = load(console, mode);
    let y = console.y_register;
    compare(console, y, value);
    read_cycles(mode, cross)
}

/// DEC: decrement the operand.
pub fn dec_instruction(console: &mut Console, opcode: u8) -> (r: u32)
    requires
        old(console).wf(),
        matches!(opcode, 0xC6 | 0xD6 | 0xCE | 0xDE),
    ensures
        final(console).wf(),
        (final(console).machine(), r) == old(console).machine().execute(opcode),
        final(console).same_outside(old(console)),
{
    let mode = addressing_mode_of(opcode);
    modify(console, mode, crate::cpu::Modify::Decrement)
}

/// DEX: decrement X.
pub fn dex_instruction(console: &mut Console, opcode: u8) -> (r: u32)
    requires
        old(console).wf(),
        opcode == 0xCA,
    ensures
        final(console).wf(),
        (final(console).machine(), r) == old(console).machine().execute(opcode),
        final(console).same_outside(old(console)),
{
    decrement_byte(&mut console.x_register);
    update_zero_and_negative_flags(console.x_register, &mut console.zero_flag, &mut console.negative_flag);
    2
}

/// DEY: decrement Y.
pub fn dey_instruction(console: &mut Console, opcode: u8) -> (r: u32)
    requires
        old(console).wf(),
        opcode == 0x88,
    ensures
        final(console).wf(),
        (final(console).machine(), r) == old(console).machine().execute(opcode),
        final(console).same_outside(old(console)),
{
    decrement_byte(&mut console.y_register);
    update_zero_and_negative_flags(console.y_register, &mut console.zero_flag, &mut console.negative_flag);
    2
}

/// INX: increment X.
pub fn inx_instruction(console: &mut Console, opcode: u8) -> (r: u32)
    requires
        old(console).wf(),
        opcode == 0xE8,
    ensures
        final(console).wf(),
        (final(console).machine(), r) == old(console).machine().execute(opcode),
        final(console).same_outside(old(console)),
{
    increment_byte(&mut console.x_register);
    update_zero_and_negative_flags(console.x_register, &mut console.zero_flag, &mut console.negative_flag);
    2
}

/// INY: increment Y.
pub fn iny_instruction(console: &mut Console, opcode: u8) -> (r: u32)
    requires
        old(console).wf(),
        opcode == 0xC8,
    ensures
        final(console).wf(),
        (final(console).machine(), r) == old(console).machine().execute(opcode),
        final(console).same_outside(old(console)),
{
    increment_byte(&mut console.y_register);
    update_zero_and_negative_flags(console.y_register, &mut console.zero_flag, &mut console.negative_flag);
    2
}

/// EOR: exclusive or of the operand into the accumulator.
pub fn eor_instruction(console: &mut Console, opcode: u8) -> (r: u32)
    requires
        old(console).wf(),
        matches!(opcode, 0x49 | 0x45 | 0x55 | 0x4D | 0x5D | 0x59 | 0x41 | 0x51),
    ensures
        final(console).wf(),
        (final(console).machine(), r) == old(console).machine().execute(opcode),
        final(console).same_outside(old(console)),
{
    let mode = addressing_mode_of(opcode);
    let (value, cross) = load(console, mode);
    console.accumulator = console.accumulator ^ value;
    update_zero_and_negative_flags(console.accumulator, &mut console.zero_flag, &mut console.negative_flag);
    read_cycles(mode, cross)
}

/// INC: increment the operand.
pub fn inc_instruction(console: &mut Console, opcode: u8) -> (r: u32)
    requires
        old(console).wf(),
        matches!(opcode, 0xE6 | 0xF6 | 0xEE | 0xFE),
    ensures
        final(console).wf(),
        (final(console).machine(), r) == old(console).machine().execute(opcode),
        final(console).same_outside(old(console)),
{
    let mode = addressing_mode_of(opcode);
    modify(console, mode, crate::cpu::Modify::Increment)
}

/// JMP: jump to the absolute address, or through the indirect pointer, whose
/// high byte is read within the pointer's page.
pub fn jmp_instruction(console: &mut Console, opcode: u8) -> (r: u32)
    requires
        old(console).wf(),
        opcode == 0x4C || opcode == 0x6C,
    ensures
        final(console).wf(),
        (final(console).machine(), r) == old(console).machine().execute(opcode),
        final(console).same_outside(old(console)),
{
    let pointer = absolute(console);
    if opcode == 0x4C {
        console.pointer_counter = pointer;
        3
    } else {
        let ll = console.read(pointer);
        let hh = console.read(pointer / 256 * 256 + (pointer % 256 + 1) % 256);
        console.pointer_counter = hh as u16 * 256 + ll as u16;
        5
    }
}

/// JSR: push the address of the instruction's last byte and jump.
pub fn jsr_instruction(console: &mut Console, opcode: u8) -> (r: u32)
    requires
        old(console).wf(),
        opcode == 0x20,
        old(console).stack_pointer >= 0x81,
    ensures
        final(console).wf(),
        (final(console).machine(), r) == old(console).machine().execute(opcode),
        final(console).same_outside(old(console)),
{
    let target = absolute(console);
    let ghost m1 = console.machine();
    let back: u16 = if console.pointer_counter == 0 { 0xFFFF } else { console.pointer_counter - 1 };
    assert(back == crate::cpu::wrap16(m1.regs.pc - 1));
    console.push_value((back / 256) as u8);
    let ghost m2 = console.machine();
    assert(m2 == m1.push(crate::cpu::page(back)));
    console.push_value((back % 256) as u8);
    assert(console.machine() == m2.push((back % 256) as u8));
    console.pointer_counter = target;
    6
}

/// LDA: load the accumulator.
pub fn lda_instruction(console: &mut Console, opcode: u8) -> (r: u32)
    requires
        old(console).wf(),
        matches!(opcode, 0xA9 | 0xA5 | 0xB5 | 0xAD | 0xBD | 0xB9 | 0xA1 | 0xB1),
    ensures
        final(console).wf(),
        (final(console).machine(), r) == old(console).machine().execute(opcode),
        final(console).same_outside(old(console)),
{
    let mode = addressing_mode_of(opcode);
    let (value, cross) = load(console, mode);
    console.accumulator = value;
    update_zero_and_negative_flags(value, &mut console.zero_flag, &mut console.negative_flag);
    read_cycles(mode, cross)
}

/// LDX: load X.
pub fn ldx_instruction(console: &mut Console, opcode: u8) -> (r: u32)
    requires
        old(console).wf(),
        matches!(opcode, 0xA2 | 0xA6 | 0xB6 | 0xAE | 0xBE),
    ensures
        final(console).wf(),
        (final(console).machine(), r) == old(console).machine().execute(opcode),
        final(console).same_outside(old(console)),
{
    let mode = addressing_mode_of(opcode);
    let (value, cross) = load(console, mode);
    console.x_register = value;
    update_zero_and_negative_flags(value, &mut console.zero_flag, &mut console.negative_flag);
    read_cycles(mode, cross)
}

/// LDY: load Y.
pub fn ldy_instruction(console: &mut Console, opcode: u8) -> (r: u32)
    requires
        old(console).wf(),
        matches!(opcode, 0xA0 | 0xA4 | 0xB4 | 0xAC | 0xBC),
    ensures
        final(console).wf(),
        (final(console).machine(), r) == old(console).machine().execute(opcode),
        final(console).same_outside(old(console)),
{
    let mode = addressing_mode_of(opcode);
    let (value, cross) = load(console, mode);
    console.y_register = value;
    update_zero_and_negative_flags(value, &mut console.zero_flag, &mut console.negative_flag);
    read_cycles(mode, cross)
}

/// LSR: shift the accumulator or the operand right; bit 0 goes to the carry.
pub fn lsr_instruction(console: &mut Console, opcode: u8) -> (r: u32)
    requires
        old(console).wf(),
        matches!(opcode, 0x4A | 0x46 | 0x56 | 0x4E | 0x5E),
    ensures
        final(console).wf(),
        (final(console).machine(), r) == old(console).machine().execute(opcode),
        final(console).same_outside(old(console)),
{
    let mode = addressing_mode_of(opcode);
    modify(console, mode, crate::cpu::Modify::ShiftRight)
}

/// NOP: do nothing for two cycles.
pub fn nop_instruction(console: &mut Console, opcode: u8) -> (r: u32)
    requires
        old(console).wf(),
        opcode == 0xEA,
    ensures
        final(console).wf(),
        (final(console).machine(), r) == old(console).machine().execute(opcode),
        final(console).same_outside(old(console)),
{
    2
}

/// ORA: bitwise or of the operand into the accumulator.
pub fn ora_instruction(console: &mut Console, opcode: u8) -> (r: u32)
    requires
        old(console).wf(),
        matches!(opcode, 0x09 | 0x05 | 0x15 | 0x0D | 0x1D | 0x19 | 0x01 | 0x11),
    ensures
        final(console).wf(),
        (final(console).machine(), r) == old(console).machine().execute(opcode),
        final(console).same_outside(old(console)),
{
    let mode = addressing_mode_of(opcode);
    let (value, cross) = load(console, mode);
    console.accumulator = console.accumulator | value;
    update_zero_and_negative_flags(console.accumulator, &mut console.zero_flag, &mut console.negative_flag);
    read_cycles(mode, cross)
}

/// PHA: push the accumulator.
pub fn pha_instruction(console: &mut Console, opcode: u8) -> (r: u32)
    requires
        old(console).wf(),
        opcode == 0x48,
        old(console).stack_pointer >= 0x80,
    ensures
        final(console).wf(),
        (final(console).machine(), r) == old(console).machine().execute(opcode),
        final(console).same_outside(old(console)),
{
    let a = console.accumulator;
    console.push_value(a);
    3
}

/// PHP: push the flags, NV-BDIZC with bit 5 clear.
pub fn php_instruction(console: &mut Console, opcode: u8) -> (r: u32)
    requires
        old(console).wf(),
        opcode == 0x08,
        old(console).stack_pointer >= 0x80,
    ensures
        final(console).wf(),
        (final(console).machine(), r) == old(console).machine().execute(opcode),
        final(console).same_outside(old(console)),
{
    let mut status: u8 = 0;
    if console.negative_flag {
        status = status + 0b1000_0000;
    }
    if console.overflow_flag {
        status = status + 0b0100_0000;
    }
    if console.break_flag {
        status = status + 0b0001_0000;
    }
    if console.decimal_flag {
        status = status + 0b0000_1000;
    }
    if console.interrupt_flag {
        status = status + 0b0000_0100;
    }
    if console.zero_flag {
        status = status + 0b0000_0010;
    }
    if console.carry_flag {
        status = status + 0b0000_0001;
    }
    console.push_value(status);
    3
}

/// PLA: pull the accumulator.
pub fn pla_instruction(console: &mut Console, opcode: u8) -> (r: u32)
    requires
        old(console).wf(),
        opcode == 0x68,
        old(console).stack_pointer < 0xFF,
    ensures
        final(console).wf(),
        (final(console).machine(), r) == old(console).machine().execute(opcode),
        final(console).same_outside(old(console)),
{
    let value = console.pop_value();
    console.accumulator = value;
    update_zero_and_negative_flags(value, &mut console.zero_flag, &mut console.negative_flag);
    4
}

/// PLP: pull the flags.
pub fn plp_instruction(console: &mut Console, opcode: u8) -> (r: u32)
    requires
        old(console).wf(),
        opcode == 0x28,
        old(console).stack_pointer < 0xFF,
    ensures
        final(console).wf(),
        (final(console).machine(), r) == old(console).machine().execute(opcode),
        final(console).same_outside(old(console)),
{
    let status = console.pop_value();
    console.negative_flag = status & 0b1000_0000 != 0;
    console.overflow_flag = status & 0b0100_0000 != 0;
    console.break_flag = status & 0b0001_0000 != 0;
    console.decimal_flag = status & 0b0000_1000 != 0;
    console.interrupt_flag = status & 0b0000_0100 != 0;
    console.zero_flag = status & 0b0000_0010 != 0;
    console.carry_flag = status & 0b0000_0001 != 0;
    4
}

/// ROL: rotate the accumulator or the operand left through the carry.
pub fn rol_instruction(console: &mut Console, opcode: u8) -> (r: u32)
    requires
        old(console).wf(),
        matches!(opcode, 0x2A | 0x26 | 0x36 | 0x2E | 0x3E),
    ensures
        final(console).wf(),
        (final(console).machine(), r) == old(console).machine().execute(opcode),
        final(console).same_outside(old(console)),
{
    let mode = addressing_mode_of(opcode);
    modify(console, mode, crate::cpu::Modify::RotateLeft)
}

/// ROR: rotate the accumulator or the operand right through the carry.
pub fn ror_instruction(console: &mut Console, opcode: u8) -> (r: u32)
    requires
        old(console).wf(),
        matches!(opcode, 0x6A | 0x66 | 0x76 | 0x6E | 0x7E),
    ensures
        final(console).wf(),
        (final(console).machine(), r) == old(console).machine().execute(opcode),
        final(console).same_outside(old(console)),
{
    let mode = addressing_mode_of(opcode);
    modify(console, mode, crate::cpu::Modify::RotateRight)
}

/// RTI: interrupts are outside this emulation; it does nothing and takes no cycle.
pub fn rti_instruction(console: &mut Console, opcode: u8) -> (r: u32)
    requires
        old(console).wf(),
        opcode == 0x40,
    ensures
        final(console).wf(),
        (final(console).machine(), r) == old(console).machine().execute(opcode),
        final(console).same_outside(old(console)),
{
    0
}

/// RTS: pull the return address and continue after it.
pub fn rts_instruction(console: &mut Console, opcode: u8) -> (r: u32)
    requires
        old(console).wf(),
        opcode == 0x60,
        old(console).stack_pointer < 0xFE,
    ensures
        final(console).wf(),
        (final(console).machine(), r) == old(console).machine().execute(opcode),
        final(console).same_outside(old(console)),
{
    let ll = console.pop_value();
    let hh = console.pop_value();
    let back: u16 = hh as u16 * 256 + ll as u16;
    console.pointer_counter = if back == 0xFFFF { 0 } else { back + 1 };
    6
}

/// SBC: subtract the operand and the borrow (the inverted carry) from the
/// accumulator.
pub fn sbc_instruction(console: &mut Console, opcode: u8) -> (r: u32)
    requires
        old(console).wf(),
        matches!(opcode, 0xE9 | 0xE5 | 0xF5 | 0xED | 0xFD | 0xF9 | 0xE1 | 0xF1),
    ensures
        final(console).wf(),
        (final(console).machine(), r) == old(console).machine().execute(opcode),
        final(console).same_outside(old(console)),
{
    let mode = addressing_mode_of(opcode);
    let (value, cross) = load(console, mode);
    add_to_accumulator(console, 255 - value);
    read_cycles(mode, cross)
}

/// STA: store the accumulator.
pub fn sta_instruction(console: &mut Console, opcode: u8) -> (r: u32)
    requires
        old(console).wf(),
        matches!(opcode, 0x85 | 0x95 | 0x8D | 0x9D | 0x99 | 0x81 | 0x91),
    ensures
        final(console).wf(),
        (final(console).machine(), r) == old(console).machine().execute(opcode),
        final(console).same_outside(old(console)),
{
    let mode = addressing_mode_of(opcode);
    let (index, cross) = operand_address(console, mode);
    let value = console.accumulator;
    console.write(index, value);
    store_cycles(mode)
}

/// STX: store X.
pub fn stx_instruction(console: &mut Console, opcode: u8) -> (r: u32)
    requires
        old(console).wf(),
        matches!(opcode, 0x86 | 0x96 | 0x8E),
    ensures
        final(console).wf(),
        (final(console).machine(), r) == old(console).machine().execute(opcode),
        final(console).same_outside(old(console)),
{
    let mode = addressing_mode_of(opcode);
    let (index, cross) = operand_address(console, mode);
    let value = console.x_register;
    console.write(index, value);
    store_cycles(mode)
}

/// STY: store Y.
pub fn sty_instruction(console: &mut Console, opcode: u8) -> (r: u32)
    requires
        old(console).wf(),
        matches!(opcode, 0x84 | 0x94 | 0x8C),
    ensures
        final(console).wf(),
        (final(console).machine(), r) == old(console).machine().execute(opcode),
        final(console).same_outside(old(console)),
{
    let mode = addressing_mode_of(opcode);
    let (index, cross) = operand_address(console, mode);
    let value = console.y_register;
    console.write(index, value);
    store_cycles(mode)
}

/// TAX: copy the accumulator into X.
pub fn tax_instruction(console: &mut Console, opcode: u8) -> (r: u32)
    requires
        old(console).wf(),
        opcode == 0xAA,
    ensures
        final(console).wf(),
        (final(console).machine(), r) == old(console).machine().execute(opcode),
        final(console).same_outside(old(console)),
{
    let source = console.accumulator;
    transfer_byte(source, &mut console.x_register);
    update_zero_and_negative_flags(console.x_register, &mut console.zero_flag, &mut console.negative_flag);
    2
}

/// TAY: copy the accumulator into Y.
pub fn tay_instruction(console: &mut Console, opcode: u8) -> (r: u32)
    requires
        old(console).wf(),
        opcode == 0xA8,
    ensures
        final(console).wf(),
        (final(console).machine(), r) == old(console).machine().execute(opcode),
        final(console).same_outside(old(console)),
{
    let source = console.accumulator;
    transfer_byte(source, &mut console.y_register);
    update_zero_and_negative_flags(console.y_register, &mut console.zero_flag, &mut console.negative_flag);
    2
}

/// TSX: copy the stack pointer into X.
pub fn tsx_instruction(console: &mut Console, opcode: u8) -> (r: u32)
    requires
        old(console).wf(),
        opcode == 0xBA,
    ensures
        final(console).wf(),
        (final(console).machine(), r) == old(console).machine().execute(opcode),
        final(console).same_outside(old(console)),
{
    let source = console.stack_pointer;
    transfer_byte(source, &mut console.x_register);
    update_zero_and_negative_flags(console.x_register, &mut console.zero_flag, &mut console.negative_flag);
    2
}

/// TXA: copy X into the accumulator.
pub fn txa_instruction(console: &mut Console, opcode: u8) -> (r: u32)
    requires
        old(console).wf(),
        opcode == 0x8A,
    ensures
        final(console).wf(),
        (final(console).machine(), r) == old(console).machine().execute(opcode),
        final(console).same_outside(old(console)),
{
    let source = console.x_register;
    transfer_byte(source, &mut console.accumulator);
    update_zero_and_negative_flags(console.accumulator, &mut console.zero_flag, &mut console.negative_flag);
    2
}

/// TXS: copy X into the stack pointer.
pub fn txs_instruction(console: &mut Console, opcode: u8) -> (r: u32)
    requires
        old(console).wf(),
        opcode == 0x9A,
    ensures
        final(console).wf(),
        (final(console).machine(), r) == old(console).machine().execute(opcode),
        final(console).same_outside(old(console)),
{
    let source = console.x_register;
    transfer_byte(source, &mut console.stack_pointer);
    2
}

/// TYA: copy Y into the accumulator.
pub fn tya_instruction(console: &mut Console, opcode: u8) -> (r: u32)
    requires
        old(console).wf(),
        opcode == 0x98,
    ensures
        final(console).wf(),
        (final(console).machine(), r) == old(console).machine().execute(opcode),
        final(console).same_outside(old(console)),
{
    let source = console.y_register;
    transfer_byte(source, &mut console.accumulator);
    update_zero_and_negative_flags(console.accumulator, &mut console.zero_flag, &mut console.negative_flag);
    2
}

/// Read, modify and write back the operand in `mode`, or the accumulator.
fn modify(console: &mut Console, mode: Mode, kind: crate::cpu::Modify) -> (r: u32)
    requires
        old(console).wf(),
        mode == Mode::Accumulator || mode == Mode::ZeroPage || mode == Mode::ZeroPageX
            || mode == Mode::Absolute || mode == Mode::AbsoluteX,
    ensures
        final(console).wf(),
        (final(console).machine(), r) == old(console).machine().modify_in(mode, kind),
        final(console).same_outside(old(console)),
{
    if mode == Mode::Accumulator {
        let mut value = console.accumulator;
        modify_byte(&mut value, &mut console.carry_flag, kind);
        console.accumulator = value;
        update_zero_and_negative_flags(value, &mut console.zero_flag, &mut console.negative_flag);
        2
    } else {
        modify_memory(console, mode, kind)
    }
}

/// Read, modify and write back the operand in the memory mode `mode`.
fn modify_memory(console: &mut Console, mode: Mode, kind: crate::cpu::Modify) -> (r: u32)
    requires
        old(console).wf(),
        mode == Mode::ZeroPage || mode == Mode::ZeroPageX || mode == Mode::Absolute
            || mode == Mode::AbsoluteX,
    ensures
        final(console).wf(),
        (final(console).machine(), r) == old(console).machine().modify_in(mode, kind),
        final(console).same_outside(old(console)),
{
    let (index, cross) = operand_address(console, mode);
    modify_at(console, index, kind);
    modify_cycles(mode)
}

/// Read the byte at `index`, modify it and write it back.
fn modify_at(console: &mut Console, index: u16, kind: crate::cpu::Modify)
    requires
        old(console).wf(),
    ensures
        final(console).wf(),
        final(console).machine() == old(console).machine().modify_at(index, kind),
        final(console).same_outside(old(console)),
{
    let mut value = console.read(index);
    modify_byte(&mut value, &mut console.carry_flag, kind);
    console.write(index, value);
    update_zero_and_negative_flags(value, &mut console.zero_flag, &mut console.negative_flag);
}

/// Apply `kind` to `value`, with the carry as the bit that enters and leaves.
fn modify_byte(value: &mut u8, carry: &mut bool, kind: crate::cpu::Modify)
    ensures
        (*final(value), *final(carry)) == crate::cpu::modified(kind, *old(value), *old(carry)),
{
    let c = *carry;
    match kind {
        crate::cpu::Modify::ShiftLeft => shift_left(value, false, carry),
        crate::cpu::Modify::ShiftRight => shift_right(value, false, carry),
        crate::cpu::Modify::RotateLeft => shift_left(value, c, carry),
        crate::cpu::Modify::RotateRight => shift_right(value, c, carry),
        crate::cpu::Modify::Increment => increment_byte(value),
        crate::cpu::Modify::Decrement => decrement_byte(value),
    }
}

} // verus!
