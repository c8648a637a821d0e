//! The abstract 6507 machine that the instruction contracts speak of.
//!
//! A `Machine` is the processor registers together with the view of the bus.
//! Each instruction is given meaning here as a function from the machine
//! right after its opcode was fetched to the machine after it has run, and
//! the number of cycles it takes.
use vstd::prelude::*;
use crate::bus::BusView;

verus! {

/// The registers and flags of the processor.
pub struct Registers {
    pub pc: u16,
    pub a: u8,
    pub x: u8,
    pub y: u8,
    pub sp: u8,
    pub n: bool,
    pub v: bool,
    pub b: bool,
    pub d: bool,
    pub i: bool,
    pub z: bool,
    pub c: bool,
}

/// The processor with the bus it drives.
#[verifier::ext_equal]
pub struct Machine {
    pub regs: Registers,
    pub bus: BusView,
}

/// Addition modulo 2^8.
pub open spec fn wrap8(x: int) -> u8 {
    (x % 256) as u8
}

/// Addition modulo 2^16.
pub open spec fn wrap16(x: int) -> u16 {
    (x % 65536) as u16
}

/// The value of a byte read as a two's complement number.
pub open spec fn signed8(b: u8) -> int {
    if b < 128 { b as int } else { b - 256 }
}

/// Whether bit 7, the sign bit, of a byte is set.
pub open spec fn negative(v: u8) -> bool {
    v >= 128
}

/// The zero and negative flags set from `value`.
pub open spec fn with_nz(r: Registers, value: u8) -> Registers {
    Registers { z: value == 0, n: negative(value), ..r }
}

/// The little-endian word of two bytes.
pub open spec fn word(ll: u8, hh: u8) -> u16 {
    (hh as int * 256 + ll) as u16
}

/// The page (high byte) of an address.
pub open spec fn page(addr: u16) -> u8 {
    (addr / 256) as u8
}

/// The addressing modes of the 6507.
#[derive(PartialEq, Eq, Structural, Clone, Copy)]
pub enum Mode {
    Implied,
    Accumulator,
    Immediate,
    ZeroPage,
    ZeroPageX,
    ZeroPageY,
    Absolute,
    AbsoluteX,
    AbsoluteY,
    IndexedIndirect,
    IndirectIndexed,
}

impl Machine {
    /// The machine with `regs` in place of its registers.
    pub open spec fn with_regs(self, regs: Registers) -> Machine {
        Machine { regs, ..self }
    }

    /// Read the byte at `addr`.
    pub open spec fn read(self, addr: u16) -> (u8, Machine) {
        (self.bus.peek(addr), Machine { bus: self.bus.after_read(addr), ..self })
    }

    /// Write `value` at `addr`.
    pub open spec fn write(self, addr: u16, value: u8) -> Machine {
        Machine { bus: self.bus.after_write(addr, value), ..self }
    }

    /// Read the byte at the program counter and step past it.
    pub open spec fn fetch(self) -> (u8, Machine) {
        let (b, m) = self.read(self.regs.pc);
        (b, m.with_regs(Registers { pc: wrap16(self.regs.pc + 1), ..m.regs }))
    }

    /// Push a byte: it is written at 0x00SP, then SP is decremented.
    pub open spec fn push(self, value: u8) -> Machine {
        let m = self.write(self.regs.sp as u16, value);
        m.with_regs(Registers { sp: wrap8(self.regs.sp - 1), ..m.regs })
    }

    /// Pop a byte: SP is incremented, then the byte at 0x00SP is read.
    pub open spec fn pop(self) -> (u8, Machine) {
        let sp = wrap8(self.regs.sp + 1);
        let m = self.with_regs(Registers { sp, ..self.regs });
        m.read(sp as u16)
    }

    /// The effective address of the operand, whether indexing crossed a
    /// page, and the machine after the operand bytes were consumed.
    pub open spec fn operand(self, mode: Mode) -> (u16, bool, Machine) {
        let r = self.regs;
        match mode {
            Mode::Immediate => (r.pc, false, self.with_regs(Registers { pc: wrap16(r.pc + 1), ..r })),
            Mode::ZeroPage => {
                let (b, m) = self.fetch();
                (b as u16, false, m)
            },
            Mode::ZeroPageX => {
                let (b, m) = self.fetch();
                (wrap8(b + r.x) as u16, false, m)
            },
            Mode::ZeroPageY => {
                let (b, m) = self.fetch();
                (wrap8(b + r.y) as u16, false, m)
            },
            Mode::Absolute => {
                let (ll, m1) = self.fetch();
                let (hh, m2) = m1.fetch();
                (word(ll, hh), false, m2)
            },
            Mode::AbsoluteX => {
                let (ll, m1) = self.fetch();
                let (hh, m2) = m1.fetch();
                (wrap16(word(ll, hh) + r.x), ll + r.x >= 256, m2)
            },
            Mode::AbsoluteY => {
                let (ll, m1) = self.fetch();
                let (hh, m2) = m1.fetch();
                (wrap16(word(ll, hh) + r.y), ll + r.y >= 256, m2)
            },
            Mode::IndexedIndirect => {
                let (b, m1) = self.fetch();
                let p = wrap8(b + r.x);
                let (ll, m2) = m1.read(p as u16);
                let (hh, m3) = m2.read(wrap8(p + 1) as u16);
                (word(ll, hh), false, m3)
            },
            Mode::IndirectIndexed => {
                let (b, m1) = self.fetch();
                let (ll, m2) = m1.read(b as u16);
                let (hh, m3) = m2.read(wrap8(b + 1) as u16);
                (wrap16(word(ll, hh) + r.y), ll + r.y >= 256, m3)
            },
            _ => (0, false, self),
        }
    }

    /// The operand's value, whether indexing crossed a page, and the machine
    /// after it was read.
    pub open spec fn load(self, mode: Mode) -> (u8, bool, Machine) {
        let (addr, cross, m) = self.operand(mode);
        let (v, m2) = m.read(addr);
        (v, cross, m2)
    }
}


/// The addressing mode of each opcode (implied for those that have none).
pub open spec fn mode_of(op: u8) -> Mode {
    match op {
        0x69 | 0x29 | 0xC9 | 0x49 | 0xA9 | 0x09 | 0xE9 | 0xA2 | 0xA0 | 0xE0 | 0xC0 => Mode::Immediate,
        0x65 | 0x25 | 0xC5 | 0x45 | 0xA5 | 0x05 | 0xE5 | 0xA6 | 0xA4 | 0xE4 | 0xC4 | 0x24 | 0x06
        | 0x46 | 0x26 | 0x66 | 0xC6 | 0xE6 | 0x85 | 0x86 | 0x84 => Mode::ZeroPage,
        0x75 | 0x35 | 0xD5 | 0x55 | 0xB5 | 0x15 | 0xF5 | 0xB4 | 0x16 | 0x56 | 0x36 | 0x76 | 0xD6
        | 0xF6 | 0x95 | 0x94 => Mode::ZeroPageX,
        0xB6 | 0x96 => Mode::ZeroPageY,
        0x6D | 0x2D | 0xCD | 0x4D | 0xAD | 0x0D | 0xED | 0xAE | 0xAC | 0xEC | 0xCC | 0x2C | 0x0E
        | 0x4E | 0x2E | 0x6E | 0xCE | 0xEE | 0x8D | 0x8E | 0x8C | 0x4C | 0x6C | 0x20 => Mode::Absolute,
        0x7D | 0x3D | 0xDD | 0x5D | 0xBD | 0x1D | 0xFD | 0xBC | 0x1E | 0x5E | 0x3E | 0x7E | 0xDE
        | 0xFE | 0x9D => Mode::AbsoluteX,
        0x79 | 0x39 | 0xD9 | 0x59 | 0xB9 | 0x19 | 0xF9 | 0xBE | 0x99 => Mode::AbsoluteY,
        0x61 | 0x21 | 0xC1 | 0x41 | 0xA1 | 0x01 | 0xE1 | 0x81 => Mode::IndexedIndirect,
        0x71 | 0x31 | 0xD1 | 0x51 | 0xB1 | 0x11 | 0xF1 | 0x91 => Mode::IndirectIndexed,
        0x0A | 0x4A | 0x2A | 0x6A => Mode::Accumulator,
        _ => Mode::Implied,
    }
}

/// Whether a mode names a byte in memory.
pub open spec fn in_memory(mode: Mode) -> bool {
    mode != Mode::Implied && mode != Mode::Accumulator
}

/// Cycles of an instruction that reads its operand: an indexed mode whose
/// indexing crossed a page takes one more.
pub open spec fn read_cycles(mode: Mode, cross: bool) -> u32 {
    let extra: u32 = if cross { 1 } else { 0 };
    match mode {
        Mode::Immediate => 2,
        Mode::ZeroPage => 3,
        Mode::ZeroPageX | Mode::ZeroPageY | Mode::Absolute => 4,
        Mode::AbsoluteX | Mode::AbsoluteY => (4 + extra) as u32,
        Mode::IndexedIndirect => 6,
        Mode::IndirectIndexed => (5 + extra) as u32,
        _ => 2,
    }
}

/// Cycles of an instruction that reads, modifies and writes back its operand.
pub open spec fn modify_cycles(mode: Mode) -> u32 {
    match mode {
        Mode::ZeroPage => 5,
        Mode::ZeroPageX | Mode::Absolute => 6,
        Mode::AbsoluteX => 7,
        _ => 2,
    }
}

/// Cycles of an instruction that stores a register.
pub open spec fn store_cycles(mode: Mode) -> u32 {
    match mode {
        Mode::ZeroPage => 3,
        Mode::ZeroPageX | Mode::ZeroPageY | Mode::Absolute => 4,
        Mode::AbsoluteX | Mode::AbsoluteY => 5,
        _ => 6,
    }
}

/// ADC: A + M + C, with carry out of bit 7 and signed overflow.
pub open spec fn add_with_carry(r: Registers, m: u8) -> Registers {
    let sum = r.a + m + if r.c { 1int } else { 0int };
    let result = wrap8(sum);
    with_nz(
        Registers {
            a: result,
            c: sum >= 256,
            v: negative(r.a) == negative(m) && negative(result) != negative(r.a),
            ..r
        },
        result,
    )
}

/// SBC: A - M - (1 - C), which is A + !M + C.
pub open spec fn subtract_with_borrow(r: Registers, m: u8) -> Registers {
    add_with_carry(r, (255 - m) as u8)
}

/// CMP, CPX, CPY: compare `register` with M.
pub open spec fn compare(r: Registers, register: u8, m: u8) -> Registers {
    with_nz(Registers { c: register >= m, ..r }, wrap8(register - m))
}

/// BIT: N and V from bits 7 and 6 of M, Z from A AND M.
pub open spec fn bit_test(r: Registers, m: u8) -> Registers {
    Registers { n: negative(m), v: m & 0x40 != 0, z: r.a & m == 0, ..r }
}

/// The read-modify-write operations.
#[derive(PartialEq, Eq, Structural, Clone, Copy)]
pub enum Modify {
    ShiftLeft,
    ShiftRight,
    RotateLeft,
    RotateRight,
    Increment,
    Decrement,
}

/// The modified byte and the new carry.
pub open spec fn modified(kind: Modify, v: u8, c: bool) -> (u8, bool) {
    match kind {
        Modify::ShiftLeft => (wrap8(v * 2), v >= 128),
        Modify::ShiftRight => (v / 2, v % 2 == 1),
        Modify::RotateLeft => (wrap8(v * 2 + if c { 1int } else { 0int }), v >= 128),
        Modify::RotateRight => ((v / 2 + if c { 128int } else { 0int }) as u8, v % 2 == 1),
        Modify::Increment => (wrap8(v + 1), c),
        Modify::Decrement => (wrap8(v - 1), c),
    }
}

/// The status register as pushed by PHP: NV-BDIZC, bit 5 clear.
pub open spec fn status_byte(r: Registers) -> u8 {
    ((if r.n { 128int } else { 0 }) + (if r.v { 64int } else { 0 }) + (if r.b { 16int } else { 0 })
        + (if r.d { 8int } else { 0 }) + (if r.i { 4int } else { 0 }) + (if r.z { 2int } else { 0 })
        + (if r.c { 1int } else { 0 })) as u8
}

/// The flags as pulled by PLP from `s`.
pub open spec fn with_status(r: Registers, s: u8) -> Registers {
    Registers {
        n: s & 0x80 != 0,
        v: s & 0x40 != 0,
        b: s & 0x10 != 0,
        d: s & 0x08 != 0,
        i: s & 0x04 != 0,
        z: s & 0x02 != 0,
        c: s & 0x01 != 0,
        ..r
    }
}

/// The address after `p` within the page of `p`: the indirect JMP reads the
/// high byte of its target there.
pub open spec fn same_page_next(p: u16) -> u16 {
    (p / 256 * 256 + (p % 256 + 1) % 256) as u16
}

impl Machine {
    /// An instruction that reads its operand and computes new registers.
    pub open spec fn read_step(self, op: u8, r: Registers, v: u8) -> Registers {
        match op {
            0x69 | 0x65 | 0x75 | 0x6D | 0x7D | 0x79 | 0x61 | 0x71 => add_with_carry(r, v),
            0xE9 | 0xE5 | 0xF5 | 0xED | 0xFD | 0xF9 | 0xE1 | 0xF1 => subtract_with_borrow(r, v),
            0x29 | 0x25 | 0x35 | 0x2D | 0x3D | 0x39 | 0x21 | 0x31 => with_nz(Registers { a: r.a & v, ..r }, r.a & v),
            0x09 | 0x05 | 0x15 | 0x0D | 0x1D | 0x19 | 0x01 | 0x11 => with_nz(Registers { a: r.a | v, ..r }, r.a | v),
            0x49 | 0x45 | 0x55 | 0x4D | 0x5D | 0x59 | 0x41 | 0x51 => with_nz(Registers { a: r.a ^ v, ..r }, r.a ^ v),
            0xC9 | 0xC5 | 0xD5 | 0xCD | 0xDD | 0xD9 | 0xC1 | 0xD1 => compare(r, r.a, v),
            0xE0 | 0xE4 | 0xEC => compare(r, r.x, v),
            0xC0 | 0xC4 | 0xCC => compare(r, r.y, v),
            0xA9 | 0xA5 | 0xB5 | 0xAD | 0xBD | 0xB9 | 0xA1 | 0xB1 => with_nz(Registers { a: v, ..r }, v),
            0xA2 | 0xA6 | 0xB6 | 0xAE | 0xBE => with_nz(Registers { x: v, ..r }, v),
            0xA0 | 0xA4 | 0xB4 | 0xAC | 0xBC => with_nz(Registers { y: v, ..r }, v),
            _ => bit_test(r, v),
        }
    }

    /// Load the operand of `op` and apply it to the registers.
    pub open spec fn read_instruction(self, op: u8) -> (Machine, u32) {
        let mode = mode_of(op);
        let (v, cross, m) = self.load(mode);
        (m.with_regs(self.read_step(op, m.regs, v)), read_cycles(mode, cross))
    }

    /// Read, modify and write back the operand of `op` (A in accumulator mode).
    pub open spec fn modify_instruction(self, op: u8, kind: Modify) -> (Machine, u32) {
        self.modify_in(mode_of(op), kind)
    }

    /// Read, modify and write back the operand in `mode` (A in accumulator mode).
    pub open spec fn modify_in(self, mode: Mode, kind: Modify) -> (Machine, u32) {
        if mode == Mode::Accumulator {
            let (v, c) = modified(kind, self.regs.a, self.regs.c);
            (self.with_regs(with_nz(Registers { a: v, c, ..self.regs }, v)), 2)
        } else {
            let (addr, cross, m1) = self.operand(mode);
            (m1.modify_at(addr, kind), modify_cycles(mode))
        }
    }

    /// Read the byte at `addr`, modify it and write it back.
    pub open spec fn modify_at(self, addr: u16, kind: Modify) -> Machine {
        let (old_value, m1) = self.read(addr);
        let (v, c) = modified(kind, old_value, m1.regs.c);
        let m2 = m1.write(addr, v);
        m2.with_regs(with_nz(Registers { c, ..m2.regs }, v))
    }

    /// Store `value` at the operand of `op`.
    pub open spec fn store_instruction(self, op: u8, value: u8) -> (Machine, u32) {
        let mode = mode_of(op);
        let (addr, cross, m) = self.operand(mode);
        (m.write(addr, value), store_cycles(mode))
    }

    /// A conditional branch: taken, it adds the signed offset to the program
    /// counter and takes one more cycle, or two when the target lies on
    /// another page.
    pub open spec fn branch(self, condition: bool) -> (Machine, u32) {
        let (b, m) = self.fetch();
        if condition {
            let target = wrap16(m.regs.pc + signed8(b));
            (
                m.with_regs(Registers { pc: target, ..m.regs }),
                if page(target) == page(m.regs.pc) { 3 } else { 4 },
            )
        } else {
            (m, 2)
        }
    }

    /// JMP, absolute (0x4C) or indirect (0x6C).
    pub open spec fn jump(self, op: u8) -> (Machine, u32) {
        let (p, cross, m1) = self.operand(Mode::Absolute);
        if op == 0x4C {
            (m1.with_regs(Registers { pc: p, ..m1.regs }), 3)
        } else {
            let (ll, m2) = m1.read(p);
            let (hh, m3) = m2.read(same_page_next(p));
            (m3.with_regs(Registers { pc: word(ll, hh), ..m3.regs }), 5)
        }
    }

    /// JSR: push the address of its last byte, high byte first, then jump.
    pub open spec fn jump_to_subroutine(self) -> (Machine, u32) {
        let (target, cross, m1) = self.operand(Mode::Absolute);
        let back = wrap16(m1.regs.pc - 1);
        let m2 = m1.push(page(back));
        let m3 = m2.push((back % 256) as u8);
        (m3.with_regs(Registers { pc: target, ..m3.regs }), 6)
    }

    /// RTS: pull the return address and step past it.
    pub open spec fn return_from_subroutine(self) -> (Machine, u32) {
        let (ll, m1) = self.pop();
        let (hh, m2) = m1.pop();
        (m2.with_regs(Registers { pc: wrap16(word(ll, hh) + 1), ..m2.regs }), 6)
    }

    /// The machine with registers `regs`, after `cycles` cycles.
    pub open spec fn implied(self, regs: Registers, cycles: u32) -> (Machine, u32) {
        (self.with_regs(regs), cycles)
    }

    /// How many bytes an instruction pushes.
    pub open spec fn pushes(op: u8) -> int {
        match op {
            0x48 | 0x08 => 1,
            0x20 => 2,
            _ => 0,
        }
    }

    /// How many bytes an instruction pops.
    pub open spec fn pops(op: u8) -> int {
        match op {
            0x68 | 0x28 => 1,
            0x60 => 2,
            _ => 0,
        }
    }

    /// Whether running `op` keeps the stack within PIA RAM (0x80 to 0xFF).
    pub open spec fn stack_fits(self, op: u8) -> bool {
        &&& (Self::pushes(op) == 0 || self.regs.sp >= 0x7F + Self::pushes(op))
        &&& self.regs.sp + Self::pops(op) <= 0xFF
    }

    /// Run the instruction `op`, whose opcode was just fetched.
    pub open spec fn execute(self, op: u8) -> (Machine, u32) {
        let r = self.regs;
        match op {
            0x69 | 0x65 | 0x75 | 0x6D | 0x7D | 0x79 | 0x61 | 0x71 | 0xE9 | 0xE5 | 0xF5 | 0xED | 0xFD
            | 0xF9 | 0xE1 | 0xF1 | 0x29 | 0x25 | 0x35 | 0x2D | 0x3D | 0x39 | 0x21 | 0x31 | 0x09
            | 0x05 | 0x15 | 0x0D | 0x1D | 0x19 | 0x01 | 0x11 | 0x49 | 0x45 | 0x55 | 0x4D | 0x5D
            | 0x59 | 0x41 | 0x51 | 0xC9 | 0xC5 | 0xD5 | 0xCD | 0xDD | 0xD9 | 0xC1 | 0xD1 | 0xE0
            | 0xE4 | 0xEC | 0xC0 | 0xC4 | 0xCC | 0xA9 | 0xA5 | 0xB5 | 0xAD | 0xBD | 0xB9 | 0xA1
            | 0xB1 | 0xA2 | 0xA6 | 0xB6 | 0xAE | 0xBE | 0xA0 | 0xA4 | 0xB4 | 0xAC | 0xBC | 0x24
            | 0x2C => self.read_instruction(op),
            0x0A | 0x06 | 0x16 | 0x0E | 0x1E => self.modify_instruction(op, Modify::ShiftLeft),
            0x4A | 0x46 | 0x56 | 0x4E | 0x5E => self.modify_instruction(op, Modify::ShiftRight),
            0x2A | 0x26 | 0x36 | 0x2E | 0x3E => self.modify_instruction(op, Modify::RotateLeft),
            0x6A | 0x66 | 0x76 | 0x6E | 0x7E => self.modify_instruction(op, Modify::RotateRight),
            0xE6 | 0xF6 | 0xEE | 0xFE => self.modify_instruction(op, Modify::Increment),
            0xC6 | 0xD6 | 0xCE | 0xDE => self.modify_instruction(op, Modify::Decrement),
            0x85 | 0x95 | 0x8D | 0x9D | 0x99 | 0x81 | 0x91 => self.store_instruction(op, r.a),
            0x86 | 0x96 | 0x8E => self.store_instruction(op, r.x),
            0x84 | 0x94 | 0x8C => self.store_instruction(op, r.y),
            0x90 => self.branch(!r.c),
            0xB0 => self.branch(r.c),
            0xF0 => self.branch(r.z),
            0xD0 => self.branch(!r.z),
            0x30 => self.branch(r.n),
            0x10 => self.branch(!r.n),
            0x50 => self.branch(!r.v),
            0x70 => self.branch(r.v),
            0x4C | 0x6C => self.jump(op),
            0x20 => self.jump_to_subroutine(),
            0x60 => self.return_from_subroutine(),
            0x48 => (self.push(r.a), 3),
            0x08 => (self.push(status_byte(r)), 3),
            0x68 => {
                let (v, m) = self.pop();
                (m.with_regs(with_nz(Registers { a: v, ..m.regs }, v)), 4)
            },
            0x28 => {
                let (v, m) = self.pop();
                (m.with_regs(with_status(m.regs, v)), 4)
            },
            0x18 => self.implied(Registers { c: false, ..r }, 2),
            0xD8 => self.implied(Registers { d: false, ..r }, 2),
            0x58 => self.implied(Registers { i: false, ..r }, 2),
            0xB8 => self.implied(Registers { v: false, ..r }, 2),
            0x38 => self.implied(Registers { c: true, ..r }, 2),
            0xF8 => self.implied(Registers { d: true, ..r }, 2),
            0x78 => self.implied(Registers { i: true, ..r }, 2),
            0xCA => self.implied(with_nz(Registers { x: wrap8(r.x - 1), ..r }, wrap8(r.x - 1)), 2),
            0x88 => self.implied(with_nz(Registers { y: wrap8(r.y - 1), ..r }, wrap8(r.y - 1)), 2),
            0xE8 => self.implied(with_nz(Registers { x: wrap8(r.x + 1), ..r }, wrap8(r.x + 1)), 2),
            0xC8 => self.implied(with_nz(Registers { y: wrap8(r.y + 1), ..r }, wrap8(r.y + 1)), 2),
            0xAA => self.implied(with_nz(Registers { x: r.a, ..r }, r.a), 2),
            0xA8 => self.implied(with_nz(Registers { y: r.a, ..r }, r.a), 2),
            0xBA => self.implied(with_nz(Registers { x: r.sp, ..r }, r.sp), 2),
            0x8A => self.implied(with_nz(Registers { a: r.x, ..r }, r.x), 2),
            0x98 => self.implied(with_nz(Registers { a: r.y, ..r }, r.y), 2),
            0x9A => self.implied(Registers { sp: r.x, ..r }, 2),
            0xEA => (self, 2),
            _ => (self, 0),
        }
    }

    /// Fetch the opcode at the program counter and run it.
    pub open spec fn step(self) -> (Machine, u32) {
        let (op, m) = self.fetch();
        m.execute(op)
    }
}

} // verus!
