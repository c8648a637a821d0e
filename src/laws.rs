//! Laws of the console that relate several operations.
use vstd::prelude::*;
use crate::bus::{BusView, lemma_masked, masked};
use crate::clock::color_cycle;
use crate::cpu::{Machine, Modify, Registers, negative, page, same_page_next, signed8, status_byte, word, wrap16, wrap8};
use crate::location::{CXCLR, CXM0P, INTIM, T1024T, TIM1T};

verus! {

/// No bit of a collision latch is clear in `after` that was set in `before`.
pub open spec fn latches_grow(before: BusView, after: BusView) -> bool {
    forall|i: int| CXM0P <= i < CXM0P + 8 ==> #[trigger] (before.tia[i] & after.tia[i]) == before.tia[i]
}

/// Decoding an address ignores bits 13 to 15: masking them off first changes
/// neither what a read returns nor what a read or a write does.
pub proof fn lemma_decoding_ignores_high_bits(b: BusView, addr: u16, value: u8)
    ensures
        b.peek(masked(addr)) == b.peek(addr),
        b.after_read(masked(addr)) == b.after_read(addr),
        b.after_write(masked(addr), value) == b.after_write(addr, value),
{
    lemma_masked(addr);
}

proof fn lemma_and_self(x: u8, m: u8)
    ensures
        x & x == x,
        x & (x | m) == x,
{
    assert(x & x == x && x & (x | m) == x) by (bit_vector);
}

/// A write anywhere but CXCLR clears no collision latch bit.
pub proof fn lemma_latches_grow_on_write(b: BusView, addr: u16, value: u8)
    requires
        b.wf(),
        masked(addr) != CXCLR,
    ensures
        latches_grow(b, b.after_write(addr, value)),
{
    lemma_masked(addr);
    let after = b.after_write(addr, value);
    assert forall|i: int| CXM0P <= i < CXM0P + 8 implies #[trigger] (b.tia[i] & after.tia[i]) == b.tia[i] by {
        assert(after.tia[i] == b.tia[i]);
        lemma_and_self(b.tia[i], 0);
    }
}

/// A read clears no collision latch bit.
pub proof fn lemma_latches_grow_on_read(b: BusView, addr: u16)
    requires
        b.wf(),
    ensures
        latches_grow(b, b.after_read(addr)),
{
    assert forall|i: int| CXM0P <= i < CXM0P + 8 implies #[trigger] (b.tia[i] & b.after_read(addr).tia[i]) == b.tia[i] by {
        lemma_and_self(b.tia[i], 0);
    }
}

/// A color cycle of the beam clears no collision latch bit.
pub proof fn lemma_latches_grow_on_color_cycle(b: BusView)
    requires
        b.wf(),
    ensures
        latches_grow(b, color_cycle(b)),
{
    let after = color_cycle(b);
    let start = crate::clock::line_start(b);
    assert forall|i: int| CXM0P <= i < CXM0P + 8 implies #[trigger] (b.tia[i] & after.tia[i]) == b.tia[i] by {
        lemma_and_self(b.tia[i], crate::video::latch_bits(start, i - CXM0P));
    }
}

/// A byte written at a RAM address reads back, whatever happens to the
/// registers in between: `LDA #v; STA addr; LDA #0; LDA addr` leaves v in A.
pub proof fn lemma_ram_round_trip(m: Machine, addr: u16, value: u8, regs: Registers)
    requires
        m.bus.wf(),
        0x80 <= masked(addr) <= 0xFF,
    ensures
        m.write(addr, value).with_regs(regs).read(addr).0 == value,
{
}

/// PHA then PLA leaves A and SP as they were.
pub proof fn lemma_push_pull_accumulator(m: Machine)
    requires
        m.bus.wf(),
        m.regs.sp >= 0x80,
    ensures
        m.execute(0x48).0.execute(0x68).0.regs.a == m.regs.a,
        m.execute(0x48).0.execute(0x68).0.regs.sp == m.regs.sp,
{
    lemma_masked(m.regs.sp as u16);
}

proof fn lemma_status_decodes(r: Registers)
    ensures
        (status_byte(r) & 0x80 != 0) == r.n,
        (status_byte(r) & 0x40 != 0) == r.v,
        (status_byte(r) & 0x10 != 0) == r.b,
        (status_byte(r) & 0x08 != 0) == r.d,
        (status_byte(r) & 0x04 != 0) == r.i,
        (status_byte(r) & 0x02 != 0) == r.z,
        (status_byte(r) & 0x01 != 0) == r.c,
{
    let s = status_byte(r);
    assert((s & 0x80 != 0) == (s >= 128) && (s & 0x40 != 0) == (s % 128 >= 64)
        && (s & 0x10 != 0) == (s % 32 >= 16) && (s & 0x08 != 0) == (s % 16 >= 8)
        && (s & 0x04 != 0) == (s % 8 >= 4) && (s & 0x02 != 0) == (s % 4 >= 2)
        && (s & 0x01 != 0) == (s % 2 == 1)) by (bit_vector);
}

/// PHP then PLP leaves the seven flags as they were.
pub proof fn lemma_push_pull_status(m: Machine)
    requires
        m.bus.wf(),
        m.regs.sp >= 0x80,
    ensures
        ({
            let r = m.execute(0x08).0.execute(0x28).0.regs;
            &&& r.n == m.regs.n
            &&& r.v == m.regs.v
            &&& r.b == m.regs.b
            &&& r.d == m.regs.d
            &&& r.i == m.regs.i
            &&& r.z == m.regs.z
            &&& r.c == m.regs.c
            &&& r.sp == m.regs.sp
        }),
{
    lemma_masked(m.regs.sp as u16);
    lemma_status_decodes(m.regs);
}

/// DEC then INC of the same byte leaves it as it was.
pub proof fn lemma_decrement_increment(m: Machine, addr: u16)
    requires
        m.bus.wf(),
        0x80 <= masked(addr) <= 0xFF,
    ensures
        m.modify_at(addr, Modify::Decrement).modify_at(addr, Modify::Increment).bus.peek(addr) == m.bus.peek(addr),
{
}

/// TXS then TSX copies X into SP and back: both end equal to the old X.
pub proof fn lemma_stack_pointer_through_x(m: Machine)
    ensures
        m.execute(0x9A).0.execute(0xBA).0.regs.sp == m.regs.x,
        m.execute(0x9A).0.execute(0xBA).0.regs.x == m.regs.x,
        m.execute(0xBA).0.execute(0x9A).0.regs.sp == m.regs.sp,
{
}

/// SEC then CLC leaves the carry clear; CLC then SEC leaves it set.
pub proof fn lemma_carry_set_clear(m: Machine)
    ensures
        !m.execute(0x38).0.execute(0x18).0.regs.c,
        m.execute(0x18).0.execute(0x38).0.regs.c,
{
}

/// A branch takes 2 cycles when not taken, 3 when taken to the same page
/// and 4 when taken to another page.
pub proof fn lemma_branch_cycles(m: Machine, condition: bool)
    ensures
        ({
            let (offset, after) = m.fetch();
            let target = wrap16(after.regs.pc + signed8(offset));
            m.branch(condition).1 == if !condition {
                2u32
            } else if page(target) == page(after.regs.pc) {
                3u32
            } else {
                4u32
            }
        }),
{
}

/// An absolute indexed read takes one more cycle exactly when adding the
/// index to the low address byte carries.
pub proof fn lemma_indexed_page_penalty(m: Machine, op: u8)
    requires
        m.bus.wf(),
        matches!(op, 0x7D | 0x3D | 0xDD | 0x5D | 0xBD | 0x1D | 0xFD | 0xBC | 0x79 | 0x39 | 0xD9 | 0x59 | 0xB9 | 0x19 | 0xF9 | 0xBE),
    ensures
        m.execute(op).1 == if m.bus.peek(m.regs.pc) + (if crate::cpu::mode_of(op) == crate::cpu::Mode::AbsoluteX { m.regs.x } else { m.regs.y }) >= 256 {
            5u32
        } else {
            4u32
        },
{
}

/// The indirect JMP reads the high byte of its target within the page of
/// the pointer: through xxFF it reads xx00.
pub proof fn lemma_indirect_jump_page_wrap(m: Machine)
    ensures
        ({
            let (p, cross, m1) = m.operand(crate::cpu::Mode::Absolute);
            let (ll, m2) = m1.read(p);
            p % 256 == 0xFF ==> m.execute(0x6C).0.regs.pc == word(ll, m2.bus.peek((p - 0xFF) as u16))
        }),
{
    let (p, cross, m1) = m.operand(crate::cpu::Mode::Absolute);
    if p % 256 == 0xFF {
        assert(same_page_next(p) == (p - 0xFF) as u16);
    }
}

/// A write to TIM1T, TIM8T, TIM64T or T1024T loads INTIM, selects the
/// interval, clears bit 7 of INSTAT and blocks the timer for the rest of the
/// instruction; the first decrement then comes one cycle later.
pub proof fn lemma_timer_reload(b: BusView, addr: u16, value: u8)
    requires
        b.wf(),
        TIM1T <= masked(addr) <= T1024T,
    ensures
        ({
            let r = b.after_write(addr, value);
            &&& r.timer_value == value
            &&& r.peek(INTIM) == value
            &&& r.timer_interval == crate::bus::interval_of(masked(addr))
            &&& r.timer_status & 0x80 == 0
            &&& r.timer_elapsed == 1
            &&& r.timer_block
            &&& value > 0 ==> r.ticked().timer_value == value - 1 && r.ticked().timer_elapsed == r.timer_interval
        }),
{
    let s = b.timer_status;
    assert((s & 0x7F) & 0x80 == 0) by (bit_vector);
    lemma_masked(INTIM);
}

/// A push is allowed with SP at 0x80, which it leaves at 0x7F; a further
/// push would leave the stack window.
pub proof fn lemma_stack_window(m: Machine)
    requires
        m.bus.wf(),
        m.regs.sp == 0x80,
    ensures
        m.stack_fits(0x48),
        m.execute(0x48).0.regs.sp == 0x7F,
        !m.execute(0x48).0.stack_fits(0x48),
{
}

/// Opcodes whose result lands in A.
pub open spec fn result_in_a(op: u8) -> bool {
    matches!(op, 0x69 | 0x65 | 0x75 | 0x6D | 0x7D | 0x79 | 0x61 | 0x71 | 0xE9 | 0xE5 | 0xF5 | 0xED
        | 0xFD | 0xF9 | 0xE1 | 0xF1 | 0x29 | 0x25 | 0x35 | 0x2D | 0x3D | 0x39 | 0x21 | 0x31 | 0x09
        | 0x05 | 0x15 | 0x0D | 0x1D | 0x19 | 0x01 | 0x11 | 0x49 | 0x45 | 0x55 | 0x4D | 0x5D | 0x59
        | 0x41 | 0x51 | 0xA9 | 0xA5 | 0xB5 | 0xAD | 0xBD | 0xB9 | 0xA1 | 0xB1 | 0x68 | 0x8A | 0x98
        | 0x0A | 0x4A | 0x2A | 0x6A)
}

/// Opcodes whose result lands in X.
pub open spec fn result_in_x(op: u8) -> bool {
    matches!(op, 0xA2 | 0xA6 | 0xB6 | 0xAE | 0xBE | 0xAA | 0xBA | 0xE8 | 0xCA)
}

/// Opcodes whose result lands in Y.
pub open spec fn result_in_y(op: u8) -> bool {
    matches!(op, 0xA0 | 0xA4 | 0xB4 | 0xAC | 0xBC | 0xA8 | 0xC8 | 0x88)
}

/// After an instruction that computes a register, Z tells whether it is
/// zero and N copies its bit 7.
pub proof fn lemma_zero_negative_rule(m: Machine, op: u8)
    ensures
        ({
            let r = m.execute(op).0.regs;
            &&& result_in_a(op) ==> r.z == (r.a == 0) && r.n == negative(r.a)
            &&& result_in_x(op) ==> r.z == (r.x == 0) && r.n == negative(r.x)
            &&& result_in_y(op) ==> r.z == (r.y == 0) && r.n == negative(r.y)
        }),
{
}

/// ADC sets C exactly on unsigned overflow of A + M + C, and V when A and M
/// have the same sign and the result another; SBC is ADC of the inverted
/// operand.
pub proof fn lemma_add_flags(m: Machine, op: u8)
    requires
        m.bus.wf(),
        matches!(op, 0x69 | 0x65 | 0x75 | 0x6D | 0x7D | 0x79 | 0x61 | 0x71 | 0xE9 | 0xE5 | 0xF5 | 0xED
            | 0xFD | 0xF9 | 0xE1 | 0xF1),
    ensures
        ({
            let (v, cross, loaded) = m.load(crate::cpu::mode_of(op));
            let m_value = if op & 0xE0 == 0x60 { v as int } else { 255 - v };
            let sum = m.regs.a + m_value + if m.regs.c { 1int } else { 0int };
            let r = m.execute(op).0.regs;
            &&& r.a == wrap8(sum)
            &&& r.c == (sum >= 256)
            &&& r.v == (negative(m.regs.a) == (m_value >= 128) && negative(r.a) != negative(m.regs.a))
        }),
{
    assert(op & 0xE0 == 0x60 <==> matches!(op, 0x69 | 0x65 | 0x75 | 0x6D | 0x7D | 0x79 | 0x61 | 0x71)) by (bit_vector)
        requires
            matches!(op, 0x69 | 0x65 | 0x75 | 0x6D | 0x7D | 0x79 | 0x61 | 0x71 | 0xE9 | 0xE5 | 0xF5 | 0xED
                | 0xFD | 0xF9 | 0xE1 | 0xF1),
    ;
}

/// CMP, CPX and CPY set C when the register is at least the operand; BIT
/// copies bits 7 and 6 of the operand into N and V and sets Z when A and the
/// operand share no bit.
pub proof fn lemma_compare_and_bit_flags(m: Machine, op: u8)
    requires
        m.bus.wf(),
    ensures
        ({
            let (v, cross, loaded) = m.load(crate::cpu::mode_of(op));
            let r = m.execute(op).0.regs;
            &&& matches!(op, 0xC9 | 0xC5 | 0xD5 | 0xCD | 0xDD | 0xD9 | 0xC1 | 0xD1) ==> r.c == (m.regs.a >= v)
            &&& matches!(op, 0xE0 | 0xE4 | 0xEC) ==> r.c == (m.regs.x >= v)
            &&& matches!(op, 0xC0 | 0xC4 | 0xCC) ==> r.c == (m.regs.y >= v)
            &&& matches!(op, 0x24 | 0x2C) ==> r.n == negative(v) && r.v == (v & 0x40 != 0) && r.z == (m.regs.a & v == 0)
        }),
{
}

/// A shift or rotate of A puts the bit shifted out into C.
pub proof fn lemma_shift_carry(m: Machine, op: u8)
    ensures
        ({
            let r = m.execute(op).0.regs;
            &&& (op == 0x0A || op == 0x2A) ==> r.c == negative(m.regs.a)
            &&& (op == 0x4A || op == 0x6A) ==> r.c == (m.regs.a % 2 == 1)
        }),
{
}

} // verus!
