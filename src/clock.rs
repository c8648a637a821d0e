//! The clock of the console: color cycles of the TIA beam, processor
//! cycles, instructions, and the conversion of elapsed time into cycles.
use vstd::prelude::*;
use crate::bus::{BusView, HORIZONTAL_CYCLES, VERTICAL_LINES};
use crate::console::{CYCLE_DURATION_NANOS, Console, Fault, SCREEN_HEIGHT};
use crate::cpu::Machine;
use crate::instruction::{
    adc_instruction, and_instruction, asl_instruction, bcc_instruction, bcs_instruction, beq_instruction,
    bit_instruction, bmi_instruction, bne_instruction, bpl_instruction, brk_instruction, bvc_instruction,
    bvs_instruction, clc_instruction, cld_instruction, cli_instruction, clv_instruction, cmp_instruction,
    cpx_instruction, cpy_instruction, dec_instruction, dex_instruction, dey_instruction, eor_instruction,
    inc_instruction, inx_instruction, iny_instruction, jmp_instruction, jsr_instruction, lda_instruction,
    ldx_instruction, ldy_instruction, lsr_instruction, nop_instruction, ora_instruction, pha_instruction,
    php_instruction, pla_instruction, plp_instruction, rol_instruction, ror_instruction, rti_instruction,
    rts_instruction, sbc_instruction, sec_instruction, sed_instruction, sei_instruction, sta_instruction,
    stx_instruction, sty_instruction, tax_instruction, tay_instruction, tsx_instruction, txa_instruction,
    txs_instruction, tya_instruction,
};
use crate::location::VSYNC;
use crate::video::{create_scanline, latch_collisions, latched, pixel};

verus! {

/// First line of the visible band.
pub const FIRST_VISIBLE_LINE: u32 = 40;

/// The line after the current one, wrapping after the last line of a frame.
pub open spec fn next_line(b: BusView) -> u32 {
    if b.scanline + 1 >= VERTICAL_LINES { 0 } else { (b.scanline + 1) as u32 }
}

/// Whether the current color cycle is the last of its line.
pub open spec fn line_ends(b: BusView) -> bool {
    b.scanline_cycle + 1 >= HORIZONTAL_CYCLES
}

/// Whether a line is in the visible band, 40 to 231.
pub open spec fn is_visible(line: u32) -> bool {
    FIRST_VISIBLE_LINE <= line < FIRST_VISIBLE_LINE + SCREEN_HEIGHT
}

/// The beam at the start of the next line: the processor is released.
pub open spec fn line_start(b: BusView) -> BusView {
    BusView { halt: false, scanline: next_line(b), scanline_cycle: 0, ..b }
}

/// Whether this color cycle composes a line of the picture.
pub open spec fn composes(b: BusView) -> bool {
    line_ends(b) && is_visible(next_line(b))
}

/// The beam moved by one color cycle, with the collisions of a composed
/// line latched.
pub open spec fn beam_moved(b: BusView) -> BusView {
    if line_ends(b) {
        if composes(b) { latched(line_start(b)) } else { line_start(b) }
    } else {
        BusView { scanline_cycle: (b.scanline_cycle + 1) as u32, ..b }
    }
}

/// A falling edge of VSYNC bit 1 snaps the beam to line 2.
pub open spec fn resynced(b: BusView) -> BusView {
    let bit = b.tia[VSYNC as int] & 0x02 != 0;
    BusView { scanline: if b.vsync && !bit { 2 } else { b.scanline }, vsync: bit, ..b }
}

/// The beam after one color cycle.
pub open spec fn color_cycle(b: BusView) -> BusView {
    resynced(beam_moved(b))
}

/// The bus after one processor cycle: the timer ticks unless a reload
/// blocked it for the current instruction, then three color cycles run.
pub open spec fn cpu_cycle(b: BusView) -> BusView {
    let timed = if b.timer_block { b } else { b.ticked() };
    color_cycle(color_cycle(color_cycle(timed)))
}

/// Processor cycles that `elapsed` nanoseconds add to an accumulator that
/// already holds `accumulated` nanoseconds.
pub open spec fn gained_cycles(accumulated: u64, elapsed: u64) -> int {
    (accumulated + elapsed) / CYCLE_DURATION_NANOS as int
}

/// The bus after `n` processor cycles of the devices.
pub open spec fn run_cycles(b: BusView, n: nat) -> BusView
    decreases n,
{
    if n == 0 { b } else { cpu_cycle(run_cycles(b, (n - 1) as nat)) }
}

/// The devices running alone while the processor is halted, for at most
/// `owed` cycles: the bus and the cycles still owed.
pub open spec fn halted_run(b: BusView, owed: int) -> (BusView, int)
    decreases owed,
{
    if owed > 0 && b.halt { halted_run(cpu_cycle(b), owed - 1) } else { (b, owed) }
}

/// One turn of the update loop: an instruction and the cycles it takes (at
/// least one), or the devices alone while the processor is halted.
pub open spec fn turn(m: Machine, owed: int) -> (Machine, int) {
    if !m.bus.halt {
        let (m1, c) = m.step();
        let charged: nat = if c == 0 { 1 } else { c as nat };
        let b = run_cycles(m1.bus, charged);
        (Machine { bus: BusView { timer_block: false, ..b }, ..m1 }, owed - charged)
    } else {
        let (b, rest) = halted_run(m.bus, owed);
        (Machine { bus: b, ..m }, rest)
    }
}

/// The update loop: turns as long as at least `floor` cycles are owed, up
/// to an instruction that would break the stack window.
pub open spec fn settle(m: Machine, owed: int, floor: int) -> (Machine, int)
    decreases owed,
{
    if owed >= floor && floor > 0 && (m.bus.halt || !m.stack_faults()) {
        let (m1, rest) = turn(m, owed);
        if 0 <= rest < owed { settle(m1, rest, floor) } else { (m1, rest) }
    } else {
        (m, owed)
    }
}

impl Machine {
    /// Whether the next instruction would push below 0x80 or pop above 0xFF.
    pub open spec fn stack_faults(self) -> bool {
        !self.stack_fits(self.bus.peek(self.regs.pc))
    }
}

/// No instruction takes more than seven cycles.
pub proof fn lemma_cycles_at_most_seven(m: Machine, op: u8)
    ensures
        m.execute(op).1 <= 7,
{
}

impl Console {
    /// Whether the beam is in the horizontal blank, the first 68 color
    /// cycles of a line.
    pub fn is_horizontal_blank(&self) -> (r: bool)
        ensures
            r == (self.bus.scanline_cycle < crate::bus::HORIZONTAL_BLANK),
    {
        self.bus.scanline_cycle < crate::bus::HORIZONTAL_BLANK
    }

    /// Whether the beam is in the vertical sync, lines 0 to 2.
    pub fn is_vertical_sync(&self) -> (r: bool)
        ensures
            r == (self.bus.scanline < 3),
    {
        self.bus.scanline < 3
    }

    /// Whether the beam is in the vertical blank, lines 3 to 39.
    pub fn is_vertical_blank(&self) -> (r: bool)
        ensures
            r == (3 <= self.bus.scanline < FIRST_VISIBLE_LINE),
    {
        self.bus.scanline >= 3 && self.bus.scanline < FIRST_VISIBLE_LINE
    }

    /// Whether the beam is in the overscan, lines 232 to 261.
    pub fn is_overscan(&self) -> (r: bool)
        ensures
            r == (self.bus.scanline >= FIRST_VISIBLE_LINE + SCREEN_HEIGHT),
    {
        self.bus.scanline >= FIRST_VISIBLE_LINE + SCREEN_HEIGHT as u32
    }

    /// Whether the beam is on a visible pixel.
    pub fn is_beam_drawing(&self) -> (r: bool)
        ensures
            r == (is_visible(self.bus.scanline) && self.bus.scanline_cycle >= crate::bus::HORIZONTAL_BLANK),
    {
        let visible = self.bus.scanline >= FIRST_VISIBLE_LINE
            && self.bus.scanline < FIRST_VISIBLE_LINE + SCREEN_HEIGHT as u32;
        visible && !self.is_horizontal_blank()
    }

    /// The row of the picture and the column that the beam is drawing.
    pub fn beam_position(&self) -> (r: (usize, usize))
        requires
            is_visible(self.bus.scanline) && self.bus.scanline_cycle >= crate::bus::HORIZONTAL_BLANK,
        ensures
            r.0 == self.bus.scanline - FIRST_VISIBLE_LINE,
            r.1 == self.bus.scanline_cycle - crate::bus::HORIZONTAL_BLANK,
    {
        (
            (self.bus.scanline - FIRST_VISIBLE_LINE) as usize,
            (self.bus.scanline_cycle - crate::bus::HORIZONTAL_BLANK) as usize,
        )
    }
}

impl Console {
    /// Advance the interval timer by one processor cycle.
    pub fn update_timer(&mut self)
        requires
            old(self).wf(),
        ensures
            final(self).wf(),
            final(self).regs() == old(self).regs(),
            final(self).bus@ == old(self).bus@.ticked(),
            final(self).same_outside(old(self)),
    {
        self.bus.update_timer();
    }

    /// Finish the current line: release the processor, move the beam to the
    /// next line and, when that line is visible, compose it into the picture
    /// and latch its collisions.
    fn end_line(&mut self)
        requires
            old(self).wf(),
            line_ends(old(self).bus@),
        ensures
            final(self).wf(),
            final(self).regs() == old(self).regs(),
            final(self).bus@ == if composes(old(self).bus@) {
                latched(line_start(old(self).bus@))
            } else {
                line_start(old(self).bus@)
            },
            final(self).elapsed_time == old(self).elapsed_time,
            final(self).remaining_cycles == old(self).remaining_cycles,
            final(self).cartridge == old(self).cartridge,
            final(self).controllers == old(self).controllers,
            forall|i: int| 0 <= i < SCREEN_HEIGHT ==> (#[trigger] final(self).framebuffer@[i])@ == if composes(old(self).bus@) && i == next_line(old(self).bus@) - FIRST_VISIBLE_LINE {
                Seq::new(160, |x: int| pixel(line_start(old(self).bus@), x))
            } else {
                old(self).framebuffer@[i]@
            },
    {
        self.bus.halt = false;
        self.bus.scanline = if self.bus.scanline + 1 >= VERTICAL_LINES { 0 } else { self.bus.scanline + 1 };
        self.bus.scanline_cycle = 0;
        let line = self.bus.scanline;
        if FIRST_VISIBLE_LINE <= line && line < FIRST_VISIBLE_LINE + SCREEN_HEIGHT as u32 {
            let pixels = create_scanline(&self.bus);
            proof {
                assert(pixels@ =~= Seq::new(160, |x: int| pixel(line_start(old(self).bus@), x)));
            }
            self.framebuffer.set((line - FIRST_VISIBLE_LINE) as usize, pixels);
            latch_collisions(&mut self.bus);
        }
    }

    /// Follow the VSYNC bit: its falling edge snaps the beam to line 2.
    fn resync(&mut self)
        requires
            old(self).wf(),
        ensures
            final(self).wf(),
            final(self).regs() == old(self).regs(),
            final(self).bus@ == resynced(old(self).bus@),
            final(self).framebuffer == old(self).framebuffer,
            final(self).elapsed_time == old(self).elapsed_time,
            final(self).remaining_cycles == old(self).remaining_cycles,
            final(self).cartridge == old(self).cartridge,
            final(self).controllers == old(self).controllers,
    {
        let bit = self.bus.tia[VSYNC as usize] & 0x02 != 0;
        if self.bus.vsync && !bit {
            self.bus.scanline = 2;
        }
        self.bus.vsync = bit;
    }

    /// Run one color cycle of the beam; at the end of a visible line, the
    /// next line is composed into the picture.
    pub fn execute_color_cycle(&mut self)
        requires
            old(self).wf(),
        ensures
            final(self).wf(),
            final(self).regs() == old(self).regs(),
            final(self).bus@ == color_cycle(old(self).bus@),
            final(self).elapsed_time == old(self).elapsed_time,
            final(self).remaining_cycles == old(self).remaining_cycles,
            final(self).cartridge == old(self).cartridge,
            final(self).controllers == old(self).controllers,
            forall|i: int| 0 <= i < SCREEN_HEIGHT ==> (#[trigger] final(self).framebuffer@[i])@ == if composes(old(self).bus@) && i == next_line(old(self).bus@) - FIRST_VISIBLE_LINE {
                Seq::new(160, |x: int| pixel(line_start(old(self).bus@), x))
            } else {
                old(self).framebuffer@[i]@
            },
    {
        if self.bus.scanline_cycle + 1 >= HORIZONTAL_CYCLES {
            self.end_line();
        } else {
            self.bus.scanline_cycle = self.bus.scanline_cycle + 1;
        }
        self.resync();
    }

    /// Run one processor cycle of the devices: the timer, then three color cycles.
    pub fn execute_cycle(&mut self)
        requires
            old(self).wf(),
        ensures
            final(self).wf(),
            final(self).regs() == old(self).regs(),
            final(self).bus@ == cpu_cycle(old(self).bus@),
            final(self).elapsed_time == old(self).elapsed_time,
            final(self).remaining_cycles == old(self).remaining_cycles,
    {
        if !self.bus.timer_block {
            self.update_timer();
        }
        self.execute_color_cycle();
        self.execute_color_cycle();
        self.execute_color_cycle();
    }

    /// The fault that running `opcode` now would raise, if any.
    fn stack_fault(&self, opcode: u8) -> (r: Option<Fault>)
        ensures
            r is None <==> self.machine().stack_fits(opcode),
            r != Some(Fault::AheadOfTime),
    {
        let pushes: u16 = match opcode {
            0x48 | 0x08 => 1,
            0x20 => 2,
            _ => 0,
        };
        let pops: u16 = match opcode {
            0x68 | 0x28 => 1,
            0x60 => 2,
            _ => 0,
        };
        if pushes > 0 && (self.stack_pointer as u16) < 0x7F + pushes {
            Some(Fault::StackOverflow)
        } else if self.stack_pointer as u16 + pops > 0xFF {
            Some(Fault::StackUnderflow)
        } else {
            None
        }
    }

    /// Run the instruction `opcode`, whose opcode byte was just fetched.
    pub fn execute_opcode(&mut self, opcode: u8) -> (r: u32)
        requires
            old(self).wf(),
            old(self).machine().stack_fits(opcode),
        ensures
            final(self).wf(),
            (final(self).machine(), r) == old(self).machine().execute(opcode),
            final(self).same_outside(old(self)),
    {
        match opcode {
            0x69 | 0x65 | 0x75 | 0x6D | 0x7D | 0x79 | 0x61 | 0x71 => adc_instruction(self, opcode),
            0x29 | 0x25 | 0x35 | 0x2D | 0x3D | 0x39 | 0x21 | 0x31 => and_instruction(self, opcode),
            0x0A | 0x06 | 0x16 | 0x0E | 0x1E => asl_instruction(self, opcode),
            0x90 => bcc_instruction(self, opcode),
            0xB0 => bcs_instruction(self, opcode),
            0xF0 => beq_instruction(self, opcode),
            0x24 | 0x2C => bit_instruction(self, opcode),
            0x30 => bmi_instruction(self, opcode),
            0xD0 => bne_instruction(self, opcode),
            0x10 => bpl_instruction(self, opcode),
            0x00 => brk_instruction(self, opcode),
            0x50 => bvc_instruction(self, opcode),
            0x70 => bvs_instruction(self, opcode),
            0x18 => clc_instruction(self, opcode),
            0xD8 => cld_instruction(self, opcode),
            0x58 => cli_instruction(self, opcode),
            0xB8 => clv_instruction(self, opcode),
            0xC9 | 0xC5 | 0xD5 | 0xCD | 0xDD | 0xD9 | 0xC1 | 0xD1 => cmp_instruction(self, opcode),
            0xE0 | 0xE4 | 0xEC => cpx_instruction(self, opcode),
            0xC0 | 0xC4 | 0xCC => cpy_instruction(self, opcode),
            0xC6 | 0xD6 | 0xCE | 0xDE => dec_instruction(self, opcode),
            0xCA => dex_instruction(self, opcode),
            0x88 => dey_instruction(self, opcode),
            0x49 | 0x45 | 0x55 | 0x4D | 0x5D | 0x59 | 0x41 | 0x51 => eor_instruction(self, opcode),
            0xE6 | 0xF6 | 0xEE | 0xFE => inc_instruction(self, opcode),
            0xE8 => inx_instruction(self, opcode),
            0xC8 => iny_instruction(self, opcode),
            0x4C | 0x6C => jmp_instruction(self, opcode),
            0x20 => jsr_instruction(self, opcode),
            0xA9 | 0xA5 | 0xB5 | 0xAD | 0xBD | 0xB9 | 0xA1 | 0xB1 => lda_instruction(self, opcode),
            0xA2 | 0xA6 | 0xB6 | 0xAE | 0xBE => ldx_instruction(self, opcode),
            0xA0 | 0xA4 | 0xB4 | 0xAC | 0xBC => ldy_instruction(self, opcode),
            0x4A | 0x46 | 0x56 | 0x4E | 0x5E => lsr_instruction(self, opcode),
            0xEA => nop_instruction(self, opcode),
            0x09 | 0x05 | 0x15 | 0x0D | 0x1D | 0x19 | 0x01 | 0x11 => ora_instruction(self, opcode),
            0x48 => pha_instruction(self, opcode),
            0x08 => php_instruction(self, opcode),
            0x68 => pla_instruction(self, opcode),
            0x28 => plp_instruction(self, opcode),
            0x2A | 0x26 | 0x36 | 0x2E | 0x3E => rol_instruction(self, opcode),
            0x6A | 0x66 | 0x76 | 0x6E | 0x7E => ror_instruction(self, opcode),
            0x40 => rti_instruction(self, opcode),
            0x60 => rts_instruction(self, opcode),
            0xE9 | 0xE5 | 0xF5 | 0xED | 0xFD | 0xF9 | 0xE1 | 0xF1 => sbc_instruction(self, opcode),
            0x38 => sec_instruction(self, opcode),
            0xF8 => sed_instruction(self, opcode),
            0x78 => sei_instruction(self, opcode),
            0x85 | 0x95 | 0x8D | 0x9D | 0x99 | 0x81 | 0x91 => sta_instruction(self, opcode),
            0x86 | 0x96 | 0x8E => stx_instruction(self, opcode),
            0x84 | 0x94 | 0x8C => sty_instruction(self, opcode),
            0xAA => tax_instruction(self, opcode),
            0xA8 => tay_instruction(self, opcode),
            0xBA => tsx_instruction(self, opcode),
            0x8A => txa_instruction(self, opcode),
            0x9A => txs_instruction(self, opcode),
            0x98 => tya_instruction(self, opcode),
            _ => 0,
        }
    }

    /// Fetch and run the next instruction, and return the cycles it took. An
    /// opcode outside the instruction set does nothing and takes no cycle.
    /// An instruction that would leave the stack window is not run.
    pub fn execute_instruction(&mut self) -> (r: Result<u32, Fault>)
        requires
            old(self).wf(),
        ensures
            final(self).wf(),
            final(self).same_outside(old(self)),
            r is Err <==> old(self).machine().stack_faults(),
            r is Err ==> final(self).machine() == old(self).machine(),
            r != Err::<u32, Fault>(Fault::AheadOfTime),
            r matches Ok(c) ==> (final(self).machine(), c) == old(self).machine().step() && c <= 7,
    {
        let opcode = self.peek(self.pointer_counter);
        match self.stack_fault(opcode) {
            Some(fault) => Err(fault),
            None => {
                let op = self.fetch_byte();
                let cycles = self.execute_opcode(op);
                proof {
                    lemma_cycles_at_most_seven(old(self).machine().fetch().1, op);
                }
                Ok(cycles)
            },
        }
    }

    /// Add `elapsed` nanoseconds to the time accumulator and return the whole
    /// cycles it holds, keeping the rest.
    fn add_time(&mut self, elapsed: u64) -> (r: i64)
        requires
            old(self).wf(),
        ensures
            final(self).wf(),
            r == gained_cycles(old(self).elapsed_time, elapsed),
            0 <= r < 0x80_0000_0000_0000,
            final(self).elapsed_time == (old(self).elapsed_time + elapsed) % CYCLE_DURATION_NANOS as int,
            final(self).machine() == old(self).machine(),
            final(self).framebuffer == old(self).framebuffer,
            final(self).remaining_cycles == old(self).remaining_cycles,
    {
        let total: u128 = self.elapsed_time as u128 + elapsed as u128;
        self.elapsed_time = (total % CYCLE_DURATION_NANOS as u128) as u64;
        let cycles = total / CYCLE_DURATION_NANOS as u128;
        assert(cycles * 837 <= total);
        cycles as i64
    }

    /// Run the devices only, while the processor is halted, for at most the
    /// remaining cycles.
    fn run_halted(&mut self)
        requires
            old(self).wf(),
            old(self).remaining_cycles >= 0,
        ensures
            final(self).wf(),
            final(self).regs() == old(self).regs(),
            (final(self).bus@, final(self).remaining_cycles as int) == halted_run(old(self).bus@, old(self).remaining_cycles as int),
            0 <= final(self).remaining_cycles <= old(self).remaining_cycles,
            old(self).remaining_cycles > 0 && old(self).bus.halt ==> final(self).remaining_cycles < old(self).remaining_cycles,
            final(self).elapsed_time == old(self).elapsed_time,
    {
        while self.remaining_cycles > 0 && self.bus.halt
            invariant
                self.wf(),
                self.regs() == old(self).regs(),
                halted_run(self.bus@, self.remaining_cycles as int) == halted_run(old(self).bus@, old(self).remaining_cycles as int),
                0 <= self.remaining_cycles <= old(self).remaining_cycles,
                old(self).remaining_cycles > 0 && old(self).bus.halt && self.remaining_cycles == old(self).remaining_cycles ==> self.bus.halt,
                self.elapsed_time == old(self).elapsed_time,
            decreases self.remaining_cycles,
        {
            self.execute_cycle();
            self.remaining_cycles = self.remaining_cycles - 1;
        }
    }

    /// Run one instruction and the processor cycles it took; an instruction
    /// that reports no cycle still occupies the bus for one.
    fn run_instruction(&mut self) -> (r: Result<(), Fault>)
        requires
            old(self).wf(),
            old(self).remaining_cycles > 0,
            !old(self).bus.halt,
        ensures
            final(self).wf(),
            final(self).elapsed_time == old(self).elapsed_time,
            r is Err <==> old(self).machine().stack_faults(),
            r is Err ==> final(self).machine() == old(self).machine() && final(self).remaining_cycles == old(self).remaining_cycles,
            r != Err::<(), Fault>(Fault::AheadOfTime),
            r is Ok ==> (final(self).machine(), final(self).remaining_cycles as int) == turn(old(self).machine(), old(self).remaining_cycles as int),
            r is Ok ==> old(self).remaining_cycles - 7 <= final(self).remaining_cycles < old(self).remaining_cycles,
    {
        let cycles = match self.execute_instruction() {
            Ok(cycles) => cycles,
            Err(fault) => return Err(fault),
        };
        let ghost stepped = self.machine();
        let charged: u32 = if cycles == 0 { 1 } else { cycles };
        self.remaining_cycles = self.remaining_cycles - charged as i64;
        let mut i: u32 = 0;
        while i < charged
            invariant
                self.wf(),
                i <= charged,
                self.regs() == stepped.regs,
                self.bus@ == run_cycles(stepped.bus, i as nat),
                self.elapsed_time == old(self).elapsed_time,
                self.remaining_cycles == old(self).remaining_cycles - charged,
            decreases charged - i,
        {
            self.execute_cycle();
            i = i + 1;
        }
        self.bus.timer_block = false;
        assert(self.machine() =~= (Machine { bus: BusView { timer_block: false, ..run_cycles(stepped.bus, charged as nat) }, ..stepped }));
        Ok(())
    }

    /// Advance the simulation by `elapsed_nanos` nanoseconds.
    ///
    /// Whole cycles of elapsed time are owed to the simulation; they are run
    /// ten at a time (no instruction takes more than seven), so that the
    /// simulation never runs ahead of time. While the processor is halted
    /// by WSYNC only the devices run.
    pub fn update(&mut self, elapsed_nanos: u64) -> (r: Result<(), Fault>)
        requires
            old(self).settled(),
        ensures
            final(self).wf(),
            final(self).elapsed_time == (old(self).elapsed_time + elapsed_nanos) % CYCLE_DURATION_NANOS as int,
            r is Ok ==> final(self).settled(),
            r is Ok ==> 0 <= final(self).remaining_cycles < 10,
            r is Ok ==> final(self).bus.scanline_cycle < HORIZONTAL_CYCLES && final(self).bus.scanline < VERTICAL_LINES,
            r is Ok ==> final(self).bus.timer_elapsed <= final(self).bus.timer_interval,
            r == Err::<(), Fault>(Fault::AheadOfTime) <==> old(self).remaining_cycles + gained_cycles(old(self).elapsed_time, elapsed_nanos) < 0,
            r is Err && r != Err::<(), Fault>(Fault::AheadOfTime) ==> final(self).machine().stack_faults(),
            (final(self).machine(), final(self).remaining_cycles as int)
                == settle(old(self).machine(), old(self).remaining_cycles + gained_cycles(old(self).elapsed_time, elapsed_nanos), 10),
            old(self).remaining_cycles + gained_cycles(old(self).elapsed_time, elapsed_nanos) < 10
                ==> final(self).framebuffer == old(self).framebuffer,
    {
        let gained = self.add_time(elapsed_nanos);
        self.remaining_cycles = self.remaining_cycles + gained;
        let ghost start = self.remaining_cycles;
        while self.remaining_cycles >= 10
            invariant
                self.wf(),
                self.remaining_cycles > -7,
                start == old(self).remaining_cycles + gained,
                gained == gained_cycles(old(self).elapsed_time, elapsed_nanos),
                start >= 0 ==> self.remaining_cycles >= 0,
                start < 10 ==> self.remaining_cycles == start && self.framebuffer == old(self).framebuffer,
                settle(self.machine(), self.remaining_cycles as int, 10) == settle(old(self).machine(), start as int, 10),
                self.remaining_cycles <= start,
                self.elapsed_time == (old(self).elapsed_time + elapsed_nanos) % CYCLE_DURATION_NANOS as int,
            decreases self.remaining_cycles,
        {
            if !self.bus.halt {
                if let Err(fault) = self.run_instruction() {
                    return Err(fault);
                }
            } else {
                self.run_halted();
            }
        }
        if self.remaining_cycles < 0 {
            return Err(Fault::AheadOfTime);
        }
        Ok(())
    }

    /// Advance the simulation by `elapsed_nanos` nanoseconds, running
    /// instructions as long as any cycle is owed; the simulation may end up
    /// to six cycles ahead of time.
    pub fn update_accurate(&mut self, elapsed_nanos: u64) -> (r: Result<(), Fault>)
        requires
            old(self).settled(),
        ensures
            final(self).wf(),
            final(self).elapsed_time == (old(self).elapsed_time + elapsed_nanos) % CYCLE_DURATION_NANOS as int,
            r is Ok ==> final(self).settled() && final(self).remaining_cycles <= 0,
            r is Err ==> final(self).machine().stack_faults(),
            (final(self).machine(), final(self).remaining_cycles as int)
                == settle(old(self).machine(), old(self).remaining_cycles + gained_cycles(old(self).elapsed_time, elapsed_nanos), 1),
    {
        let gained = self.add_time(elapsed_nanos);
        self.remaining_cycles = self.remaining_cycles + gained;
        let ghost start = self.remaining_cycles as int;
        while self.remaining_cycles > 0
            invariant
                self.wf(),
                self.remaining_cycles > -7,
                self.elapsed_time == (old(self).elapsed_time + elapsed_nanos) % CYCLE_DURATION_NANOS as int,
                start == old(self).remaining_cycles + gained_cycles(old(self).elapsed_time, elapsed_nanos),
                settle(self.machine(), self.remaining_cycles as int, 1) == settle(old(self).machine(), start, 1),
            decreases self.remaining_cycles + 7,
        {
            if !self.bus.halt {
                if let Err(fault) = self.run_instruction() {
                    return Err(fault);
                }
            } else {
                self.run_halted();
            }
        }
        Ok(())
    }
}

} // verus!
