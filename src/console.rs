//! The console: processor registers, bus, picture and the clock that drives them.
use vstd::prelude::*;
use crate::bus::{Bus, SCREEN_WIDTH};
use crate::cartridge::Cartridge;
use crate::controller::Controller;
use crate::cpu::{Machine, Registers, wrap16};
use crate::location::SWCHB;

verus! {

/// Visible lines of a frame.
pub const SCREEN_HEIGHT: usize = 192;
/// Duration of one processor cycle in nanoseconds: one second divided by
/// 1,193,525 cycles, truncated.
pub const CYCLE_DURATION_NANOS: u64 = 837;

/// The TV type output.
///
/// The console has a physical switch for black and white or color TV sets.
#[derive(PartialEq, Eq, Structural, Clone, Copy, Debug)]
pub enum TvType {
    Mono,
    Color,
}

/// The identification of a player, and of a controller port.
#[derive(PartialEq, Eq, Structural, Clone, Copy, Debug)]
pub enum Player {
    One,
    Two,
}

/// The difficulty switch of a player: 'amateur' for easy, 'pro' for difficult.
#[derive(PartialEq, Eq, Structural, Clone, Copy, Debug)]
pub enum Difficulty {
    Amateur,
    Pro,
}

/// A defensive stop: the program running on the console did something that
/// real hardware could not survive, and the emulation cannot go on.
#[derive(PartialEq, Eq, Structural, Clone, Copy, Debug)]
pub enum Fault {
    /// A push with the stack pointer below 0x80, out of PIA RAM.
    StackOverflow,
    /// A pop with the stack pointer at 0xFF: the stack is empty.
    StackUnderflow,
    /// The simulation ran ahead of the elapsed time.
    AheadOfTime,
}

/// An RGB pixel.
pub type Rgb = (u8, u8, u8);

/// A virtual Atari 2600 gaming console.
///
/// It is built around a mandatory cartridge, which cannot be removed, and is
/// turned on from the moment it is created.
pub struct Console {
    pub pointer_counter: u16,
    pub accumulator: u8,
    pub x_register: u8,
    pub y_register: u8,
    pub negative_flag: bool,
    pub overflow_flag: bool,
    pub break_flag: bool,
    pub decimal_flag: bool,
    pub interrupt_flag: bool,
    pub zero_flag: bool,
    pub carry_flag: bool,
    pub stack_pointer: u8,
    pub bus: Bus,
    pub framebuffer: Vec<Vec<Rgb>>,
    pub elapsed_time: u64,
    pub remaining_cycles: i64,
    pub cartridge: Cartridge,
    pub controllers: (bool, bool),
}

impl Console {
    /// The registers of the processor.
    pub open spec fn regs(&self) -> Registers {
        Registers {
            pc: self.pointer_counter,
            a: self.accumulator,
            x: self.x_register,
            y: self.y_register,
            sp: self.stack_pointer,
            n: self.negative_flag,
            v: self.overflow_flag,
            b: self.break_flag,
            d: self.decimal_flag,
            i: self.interrupt_flag,
            z: self.zero_flag,
            c: self.carry_flag,
        }
    }

    /// The processor and its bus.
    pub open spec fn machine(&self) -> Machine {
        Machine { regs: self.regs(), bus: self.bus@ }
    }

    /// What lies outside the processor and the bus is the same in both.
    pub open spec fn same_outside(&self, other: &Console) -> bool {
        &&& self.framebuffer@ == other.framebuffer@
        &&& self.elapsed_time == other.elapsed_time
        &&& self.remaining_cycles == other.remaining_cycles
        &&& self.cartridge == other.cartridge
        &&& self.controllers == other.controllers
    }

    pub open spec fn wf(&self) -> bool {
        &&& self.bus@.wf()
        &&& self.framebuffer@.len() == SCREEN_HEIGHT
        &&& forall|i: int| 0 <= i < SCREEN_HEIGHT ==> #[trigger] self.framebuffer@[i]@.len() == SCREEN_WIDTH
        &&& self.elapsed_time < CYCLE_DURATION_NANOS
    }

    /// Well formed, and between two updates: at most 9 cycles are owed to
    /// the simulation, and at most 6 were run ahead of time.
    pub open spec fn settled(&self) -> bool {
        &&& self.wf()
        &&& -7 < self.remaining_cycles < 10
    }

    /// Create a console with `cartridge` plugged in.
    pub fn new(cartridge: Cartridge) -> (r: Console)
        ensures
            r.settled(),
            r.pointer_counter == 0xF000,
            r.accumulator == 0 && r.x_register == 0 && r.y_register == 0,
            r.stack_pointer == 0xFF,
            r.negative_flag && r.overflow_flag && r.break_flag && r.decimal_flag,
            r.interrupt_flag && r.zero_flag && r.carry_flag,
            forall|i: int| 0 <= i < 4096 ==> r.bus@.rom[i] == crate::cartridge::rom_byte(cartridge.memory@, i),
            r.bus@.tia == Seq::new(64, |i: int| 0u8),
            r.bus@.ram == Seq::new(128, |i: int| 0u8),
            r.bus@.pia == Seq::new(4, |i: int| 0u8),
            r.bus.timer_value == 0 && r.bus.timer_status == 0,
            r.bus.timer_interval == 1 && r.bus.timer_elapsed == 1,
            r.bus.scanline == 0 && r.bus.scanline_cycle == 0 && !r.bus.halt,
            r.elapsed_time == 0 && r.remaining_cycles == 0,
    {
        let rom = cartridge.rom_image();
        let mut framebuffer: Vec<Vec<Rgb>> = Vec::new();
        while framebuffer.len() < SCREEN_HEIGHT
            invariant
                framebuffer@.len() <= SCREEN_HEIGHT,
                forall|i: int| 0 <= i < framebuffer@.len() ==> #[trigger] framebuffer@[i]@.len() == SCREEN_WIDTH,
            decreases SCREEN_HEIGHT - framebuffer.len(),
        {
            let mut line: Vec<Rgb> = Vec::new();
            while line.len() < SCREEN_WIDTH as usize
                invariant
                    line@.len() <= SCREEN_WIDTH,
                decreases SCREEN_WIDTH - line.len(),
            {
                line.push((0, 0, 0));
            }
            framebuffer.push(line);
        }
        Console {
            pointer_counter: 0xF000,
            accumulator: 0,
            x_register: 0,
            y_register: 0,
            negative_flag: true,
            overflow_flag: true,
            break_flag: true,
            decimal_flag: true,
            interrupt_flag: true,
            zero_flag: true,
            carry_flag: true,
            stack_pointer: 0xFF,
            bus: Bus::new(rom),
            framebuffer,
            elapsed_time: 0,
            remaining_cycles: 0,
            cartridge,
            controllers: (false, false),
        }
    }

    /// The picture: 192 rows of 160 RGB pixels, row 0 at the top of the
    /// visible area.
    pub fn framebuffer(&self) -> (r: &Vec<Vec<Rgb>>)
        ensures
            r@ == self.framebuffer@,
    {
        &self.framebuffer
    }

    /// The byte at `addr`, without the side effect of a read.
    pub fn peek(&self, addr: u16) -> (r: u8)
        requires
            self.wf(),
        ensures
            r == self.bus@.peek(addr),
    {
        self.bus.peek(addr)
    }

    /// Read the byte at `addr` through the bus.
    pub fn read(&mut self, addr: u16) -> (r: u8)
        requires
            old(self).wf(),
        ensures
            final(self).wf(),
            (r, final(self).machine()) == old(self).machine().read(addr),
            final(self).same_outside(old(self)),
    {
        self.bus.read(addr)
    }

    /// Write `value` at `addr` through the bus.
    pub fn write(&mut self, addr: u16, value: u8)
        requires
            old(self).wf(),
        ensures
            final(self).wf(),
            final(self).machine() == old(self).machine().write(addr, value),
            final(self).same_outside(old(self)),
    {
        self.bus.write(addr, value);
    }
}


impl Console {
    /// The byte at the program counter (a read through the bus).
    pub fn pointed_value(&mut self) -> (r: u8)
        requires
            old(self).wf(),
        ensures
            final(self).wf(),
            (r, final(self).machine()) == old(self).machine().read(old(self).pointer_counter),
            final(self).same_outside(old(self)),
    {
        self.bus.read(self.pointer_counter)
    }

    /// Step the program counter to the next byte, wrapping at 16 bits.
    pub fn advance_pointer(&mut self)
        requires
            old(self).wf(),
        ensures
            final(self).wf(),
            final(self).machine() == old(self).machine().with_regs(
                Registers { pc: wrap16(old(self).pointer_counter + 1), ..old(self).regs() },
            ),
            final(self).same_outside(old(self)),
    {
        self.pointer_counter = if self.pointer_counter == 0xFFFF {
            0
        } else {
            self.pointer_counter + 1
        };
    }

    /// Read the byte at the program counter and step past it.
    pub fn fetch_byte(&mut self) -> (r: u8)
        requires
            old(self).wf(),
        ensures
            final(self).wf(),
            (r, final(self).machine()) == old(self).machine().fetch(),
            final(self).same_outside(old(self)),
    {
        let r = self.pointed_value();
        self.advance_pointer();
        r
    }

    /// Push `value` on the stack, which lives in PIA RAM.
    pub fn push_value(&mut self, value: u8)
        requires
            old(self).wf(),
            old(self).stack_pointer >= 0x80,
        ensures
            final(self).wf(),
            final(self).machine() == old(self).machine().push(value),
            final(self).same_outside(old(self)),
    {
        self.write(self.stack_pointer as u16, value);
        self.stack_pointer = self.stack_pointer - 1;
    }

    /// Pop a byte from the stack.
    pub fn pop_value(&mut self) -> (r: u8)
        requires
            old(self).wf(),
            old(self).stack_pointer < 0xFF,
        ensures
            final(self).wf(),
            (r, final(self).machine()) == old(self).machine().pop(),
            final(self).same_outside(old(self)),
    {
        self.stack_pointer = self.stack_pointer + 1;
        self.read(self.stack_pointer as u16)
    }

    /// Update SWCHB to `value`.
    fn set_switches(&mut self, value: u8)
        requires
            old(self).wf(),
        ensures
            final(self).wf(),
            final(self).machine() == old(self).machine().write(SWCHB, value),
            final(self).same_outside(old(self)),
    {
        self.write(SWCHB, value);
    }

    /// Press the reset button: bit 0 of SWCHB reads 0.
    pub fn press_reset_button(&mut self)
        requires
            old(self).wf(),
        ensures
            final(self).wf(),
            final(self).machine() == old(self).machine().write(SWCHB, old(self).bus@.peek(SWCHB) & 0xFE),
            final(self).same_outside(old(self)),
    {
        let v = self.peek(SWCHB);
        self.set_switches(v & 0xFE);
    }

    /// Release the reset button: bit 0 of SWCHB reads 1.
    pub fn release_reset_button(&mut self)
        requires
            old(self).wf(),
        ensures
            final(self).wf(),
            final(self).machine() == old(self).machine().write(SWCHB, old(self).bus@.peek(SWCHB) | 0x01),
            final(self).same_outside(old(self)),
    {
        let v = self.peek(SWCHB);
        self.set_switches(v | 0x01);
    }

    /// Press the select button: bit 1 of SWCHB reads 0.
    pub fn press_select_button(&mut self)
        requires
            old(self).wf(),
        ensures
            final(self).wf(),
            final(self).machine() == old(self).machine().write(SWCHB, old(self).bus@.peek(SWCHB) & 0xFD),
            final(self).same_outside(old(self)),
    {
        let v = self.peek(SWCHB);
        self.set_switches(v & 0xFD);
    }

    /// Release the select button: bit 1 of SWCHB reads 1.
    pub fn release_select_button(&mut self)
        requires
            old(self).wf(),
        ensures
            final(self).wf(),
            final(self).machine() == old(self).machine().write(SWCHB, old(self).bus@.peek(SWCHB) | 0x02),
            final(self).same_outside(old(self)),
    {
        let v = self.peek(SWCHB);
        self.set_switches(v | 0x02);
    }

    /// The position of the TV type switch: bit 3 of SWCHB, 1 for color.
    pub fn tv_type_switch(&self) -> (r: TvType)
        requires
            self.wf(),
        ensures
            r == (if self.bus@.peek(SWCHB) & 0x08 != 0 { TvType::Color } else { TvType::Mono }),
    {
        if self.peek(SWCHB) & 0x08 != 0 {
            TvType::Color
        } else {
            TvType::Mono
        }
    }

    /// Move the TV type switch.
    pub fn set_tv_type_switch(&mut self, tv_type: TvType)
        requires
            old(self).wf(),
        ensures
            final(self).wf(),
            final(self).machine() == old(self).machine().write(
                SWCHB,
                (if tv_type == TvType::Color { old(self).bus@.peek(SWCHB) | 0x08 } else { old(self).bus@.peek(SWCHB) & 0xF7 }),
            ),
            final(self).same_outside(old(self)),
    {
        let v = self.peek(SWCHB);
        match tv_type {
            TvType::Color => self.set_switches(v | 0x08),
            TvType::Mono => self.set_switches(v & 0xF7),
        }
    }

    /// The SWCHB bit of the difficulty switch of `player`.
    pub open spec fn difficulty_mask(player: Player) -> u8 {
        match player {
            Player::One => 0x40,
            Player::Two => 0x80,
        }
    }

    /// The position of the difficulty switch of `player`: bit 6 (player one)
    /// or 7 (player two) of SWCHB, 1 for pro.
    pub fn difficulty_switch(&self, player: Player) -> (r: Difficulty)
        requires
            self.wf(),
        ensures
            r == (if self.bus@.peek(SWCHB) & Self::difficulty_mask(player) != 0 {
                Difficulty::Pro
            } else {
                Difficulty::Amateur
            }),
    {
        let mask: u8 = match player {
            Player::One => 0x40,
            Player::Two => 0x80,
        };
        if self.peek(SWCHB) & mask != 0 {
            Difficulty::Pro
        } else {
            Difficulty::Amateur
        }
    }

    /// Move the difficulty switch of `player`.
    pub fn set_difficulty_switch(&mut self, player: Player, difficulty: Difficulty)
        requires
            old(self).wf(),
        ensures
            final(self).wf(),
            final(self).machine() == old(self).machine().write(
                SWCHB,
                (if difficulty == Difficulty::Pro {
                    old(self).bus@.peek(SWCHB) | Self::difficulty_mask(player)
                } else {
                    old(self).bus@.peek(SWCHB) & !Self::difficulty_mask(player)
                }),
            ),
            final(self).same_outside(old(self)),
    {
        let mask: u8 = match player {
            Player::One => 0x40,
            Player::Two => 0x80,
        };
        let v = self.peek(SWCHB);
        match difficulty {
            Difficulty::Pro => self.set_switches(v | mask),
            Difficulty::Amateur => self.set_switches(v & !mask),
        }
    }

    /// Plug `controller` into port `slot`.
    pub fn plug_controller<C: Controller>(&mut self, slot: Player, controller: &mut C)
        requires
            old(self).wf(),
        ensures
            final(self).wf(),
            final(self).machine() == old(self).machine(),
            final(self).framebuffer@ == old(self).framebuffer@,
            final(self).controllers == (match slot {
                Player::One => (true, old(self).controllers.1),
                Player::Two => (old(self).controllers.0, true),
            }),
    {
        controller.plugged(slot);
        match slot {
            Player::One => self.controllers.0 = true,
            Player::Two => self.controllers.1 = true,
        }
    }
}

} // verus!
