//! The MOS 6507 addressing modes.
//!
//! Each function consumes the operand bytes that follow the opcode and
//! returns the address on which the instruction operates, with, for the
//! indexed modes, whether indexing crossed a page (most instructions then
//! take one more cycle).
use vstd::prelude::*;
use crate::console::Console;
use crate::cpu::{Mode, signed8};

verus! {

/// Relative addressing mode: the signed branch offset that follows the opcode.
pub fn relative(console: &mut Console) -> (r: i8)
    requires
        old(console).wf(),
    ensures
        final(console).wf(),
        r as int == signed8(old(console).machine().fetch().0),
        final(console).machine() == old(console).machine().fetch().1,
        final(console).same_outside(old(console)),
{
    let b = console.fetch_byte();
    if b < 128 {
        b as i8
    } else {
        (b as i16 - 256) as i8
    }
}

/// Immediate addressing mode: the operand is the byte that follows the opcode.
pub fn immediate(console: &mut Console) -> (r: u16)
    requires
        old(console).wf(),
    ensures
        final(console).wf(),
        (r, false, final(console).machine()) == old(console).machine().operand(Mode::Immediate),
        final(console).same_outside(old(console)),
{
    let index = console.pointer_counter;
    console.advance_pointer();
    index
}

/// Zero page addressing mode: the operand lies in the first 256 bytes, at
/// the index that follows the opcode.
pub fn zero_page(console: &mut Console) -> (r: u16)
    requires
        old(console).wf(),
    ensures
        final(console).wf(),
        (r, false, final(console).machine()) == old(console).machine().operand(Mode::ZeroPage),
        final(console).same_outside(old(console)),
{
    let b = console.fetch_byte();
    b as u16
}

/// Zero page X addressing mode: the index that follows the opcode plus X,
/// wrapping within the zero page.
pub fn zero_page_x(console: &mut Console) -> (r: u16)
    requires
        old(console).wf(),
    ensures
        final(console).wf(),
        (r, false, final(console).machine()) == old(console).machine().operand(Mode::ZeroPageX),
        final(console).same_outside(old(console)),
{
    let b = console.fetch_byte();
    (b as u16 + console.x_register as u16) % 256
}

/// Zero page Y addressing mode: the index that follows the opcode plus Y,
/// wrapping within the zero page.
pub fn zero_page_y(console: &mut Console) -> (r: u16)
    requires
        old(console).wf(),
    ensures
        final(console).wf(),
        (r, false, final(console).machine()) == old(console).machine().operand(Mode::ZeroPageY),
        final(console).same_outside(old(console)),
{
    let b = console.fetch_byte();
    (b as u16 + console.y_register as u16) % 256
}

/// Absolute addressing mode: the little-endian address that follows the opcode.
pub fn absolute(console: &mut Console) -> (r: u16)
    requires
        old(console).wf(),
    ensures
        final(console).wf(),
        (r, false, final(console).machine()) == old(console).machine().operand(Mode::Absolute),
        final(console).same_outside(old(console)),
{
    let ll = console.fetch_byte();
    let hh = console.fetch_byte();
    hh as u16 * 256 + ll as u16
}

/// The absolute address `ll`, `hh` indexed by `index`, and whether the low
/// byte carried into the page.
fn indexed(ll: u8, hh: u8, index: u8) -> (r: (u16, bool))
    ensures
        r.0 == crate::cpu::wrap16(crate::cpu::word(ll, hh) + index),
        r.1 == (ll + index >= 256),
{
    let sum: u32 = hh as u32 * 256 + ll as u32 + index as u32;
    ((sum % 65536) as u16, ll as u16 + index as u16 >= 256)
}

/// Absolute X addressing mode: the address that follows the opcode plus X.
pub fn absolute_x(console: &mut Console) -> (r: (u16, bool))
    requires
        old(console).wf(),
    ensures
        final(console).wf(),
        (r.0, r.1, final(console).machine()) == old(console).machine().operand(Mode::AbsoluteX),
        final(console).same_outside(old(console)),
{
    let ll = console.fetch_byte();
    let hh = console.fetch_byte();
    indexed(ll, hh, console.x_register)
}

/// Absolute Y addressing mode: the address that follows the opcode plus Y.
pub fn absolute_y(console: &mut Console) -> (r: (u16, bool))
    requires
        old(console).wf(),
    ensures
        final(console).wf(),
        (r.0, r.1, final(console).machine()) == old(console).machine().operand(Mode::AbsoluteY),
        final(console).same_outside(old(console)),
{
    let ll = console.fetch_byte();
    let hh = console.fetch_byte();
    indexed(ll, hh, console.y_register)
}

/// Indexed indirect addressing mode, (zp,X): the byte that follows the opcode
/// plus X, wrapping within the zero page, points at the little-endian
/// address of the operand, itself read within the zero page.
pub fn indexed_indirect(console: &mut Console) -> (r: u16)
    requires
        old(console).wf(),
    ensures
        final(console).wf(),
        (r, false, final(console).machine()) == old(console).machine().operand(Mode::IndexedIndirect),
        final(console).same_outside(old(console)),
{
    let b = console.fetch_byte();
    let pointer = (b as u16 + console.x_register as u16) % 256;
    let ll = console.read(pointer);
    let hh = console.read((pointer + 1) % 256);
    hh as u16 * 256 + ll as u16
}

/// Indirect indexed addressing mode, (zp),Y: the byte that follows the
/// opcode points at a little-endian address in the zero page, to which Y is
/// added.
pub fn indirect_indexed(console: &mut Console) -> (r: (u16, bool))
    requires
        old(console).wf(),
    ensures
        final(console).wf(),
        (r.0, r.1, final(console).machine()) == old(console).machine().operand(Mode::IndirectIndexed),
        final(console).same_outside(old(console)),
{
    let b = console.fetch_byte();
    let ll = console.read(b as u16);
    let hh = console.read((b as u16 + 1) % 256);
    indexed(ll, hh, console.y_register)
}

} // verus!
