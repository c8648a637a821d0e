//! The memory-mapped address space of the 6507 and the devices behind it.
//!
//! The bus owns every byte that the processor can reach (TIA registers, PIA
//! RAM and ports, the PIA interval timer and the cartridge ROM) together with
//! the TIA state that register writes act upon: object positions, the beam
//! position and the processor halt line.
use vstd::prelude::*;
use crate::location::{
    CXCLR, CXM0P, CXPPMM, HMBL, HMCLR, HMM0, HMM1, HMOVE, HMP0, HMP1, INSTAT, INTIM, RESBL, RESM0, RESM1,
    RESP0, RESP1, RSYNC, SWBCNT, SWCHA, T1024T, TIM1T, TIM64T, TIM8T, WSYNC,
};

verus! {

/// Width of the beam in color cycles, blanking included.
pub const HORIZONTAL_CYCLES: u32 = 228;
/// Number of lines of a frame.
pub const VERTICAL_LINES: u32 = 262;
/// Color cycles of horizontal blanking at the start of each line.
pub const HORIZONTAL_BLANK: u32 = 68;
/// Number of visible pixels of a line.
pub const SCREEN_WIDTH: u32 = 160;
/// Size of the cartridge ROM window.
pub const ROM_SIZE: usize = 4096;

/// The 13 address lines of the 6507: bits 13 to 15 never reach the bus.
pub open spec fn masked(addr: u16) -> u16 {
    addr & 0x1FFF
}

pub proof fn lemma_masked(addr: u16)
    ensures
        masked(addr) <= 0x1FFF,
        masked(masked(addr)) == masked(addr),
        addr <= 0x1FFF ==> masked(addr) == addr,
{
    assert(addr & 0x1FFF <= 0x1FFF && (addr & 0x1FFF) & 0x1FFF == addr & 0x1FFF
        && (addr <= 0x1FFF ==> addr & 0x1FFF == addr)) by (bit_vector);
}

/// Whether a masked address is one of the eight collision latches.
pub open spec fn is_latch(a: u16) -> bool {
    CXM0P <= a <= CXPPMM
}

/// The decrement interval selected by a write to one of the timer registers.
pub open spec fn interval_of(a: u16) -> u32 {
    if a == TIM1T { 1 } else if a == TIM8T { 8 } else if a == TIM64T { 64 } else { 1024 }
}

/// Signed horizontal motion held in the high nibble of an HMxx register,
/// applied to a column modulo the screen width.
pub open spec fn moved_by(position: u32, motion: u8) -> u32 {
    let n = motion as int / 16;
    let signed = if n >= 8 { n - 16 } else { n };
    ((position + 160 + signed) % 160) as u32
}

/// Everything the bus holds, with memories as sequences.
#[verifier::ext_equal]
pub struct BusView {
    pub tia: Seq<u8>,
    pub ram: Seq<u8>,
    pub pia: Seq<u8>,
    pub rom: Seq<u8>,
    pub timer_value: u8,
    pub timer_status: u8,
    pub timer_interval: u32,
    pub timer_elapsed: u32,
    pub timer_block: bool,
    pub player0: u32,
    pub player1: u32,
    pub missile0: u32,
    pub missile1: u32,
    pub ball: u32,
    pub scanline: u32,
    pub scanline_cycle: u32,
    pub halt: bool,
    pub vsync: bool,
}

impl BusView {
    pub open spec fn wf(self) -> bool {
        &&& self.tia.len() == 64
        &&& self.ram.len() == 128
        &&& self.pia.len() == 4
        &&& self.rom.len() == ROM_SIZE
        &&& (self.timer_interval == 1 || self.timer_interval == 8 || self.timer_interval == 64
            || self.timer_interval == 1024)
        &&& 1 <= self.timer_elapsed <= self.timer_interval
        &&& self.player0 < 160
        &&& self.player1 < 160
        &&& self.missile0 < 160
        &&& self.missile1 < 160
        &&& self.ball < 160
        &&& self.scanline < VERTICAL_LINES
        &&& self.scanline_cycle < HORIZONTAL_CYCLES
    }

    /// TIA register `r` (an address below 0x40).
    pub open spec fn reg(self, r: u16) -> u8 {
        self.tia[r as int]
    }

    /// The byte that a read of `addr` returns.
    pub open spec fn peek(self, addr: u16) -> u8 {
        let a = masked(addr);
        if a <= 0x3D {
            self.tia[a as int]
        } else if 0x80 <= a <= 0xFF {
            self.ram[a - 0x80]
        } else if SWCHA <= a <= SWBCNT {
            self.pia[a - SWCHA]
        } else if a == INTIM {
            self.timer_value
        } else if a == INSTAT {
            self.timer_status
        } else if 0x1000 <= a {
            self.rom[a - 0x1000]
        } else {
            0
        }
    }

    /// The bus after a read of `addr`: reading INSTAT clears its bit 6.
    pub open spec fn after_read(self, addr: u16) -> BusView {
        if masked(addr) == INSTAT {
            BusView { timer_status: self.timer_status & 0xBF, ..self }
        } else {
            self
        }
    }

    /// Column an object takes when its reset strobe is written now.
    pub open spec fn reset_column(self, fixup: u32) -> u32 {
        if self.scanline_cycle < HORIZONTAL_BLANK {
            fixup
        } else {
            (self.scanline_cycle - HORIZONTAL_BLANK) as u32
        }
    }

    /// The side effect of a write to TIA register `a`.
    pub open spec fn strobed(self, a: u16) -> BusView {
        if a == WSYNC {
            BusView { halt: true, ..self }
        } else if a == RSYNC {
            BusView { scanline_cycle: 0, ..self }
        } else if a == RESP0 {
            BusView { player0: self.reset_column(3), ..self }
        } else if a == RESP1 {
            BusView { player1: self.reset_column(3), ..self }
        } else if a == RESM0 {
            BusView { missile0: self.reset_column(2), ..self }
        } else if a == RESM1 {
            BusView { missile1: self.reset_column(2), ..self }
        } else if a == RESBL {
            BusView { ball: self.reset_column(2), ..self }
        } else if a == HMOVE {
            BusView {
                player0: moved_by(self.player0, self.reg(HMP0)),
                player1: moved_by(self.player1, self.reg(HMP1)),
                missile0: moved_by(self.missile0, self.reg(HMM0)),
                missile1: moved_by(self.missile1, self.reg(HMM1)),
                ball: moved_by(self.ball, self.reg(HMBL)),
                ..self
            }
        } else if a == HMCLR {
            BusView {
                tia: Seq::new(64, |i: int| if HMP0 <= i <= HMBL { 0u8 } else { self.tia[i] }),
                ..self
            }
        } else if a == CXCLR {
            BusView {
                tia: Seq::new(64, |i: int| if CXM0P <= i <= CXPPMM { 0u8 } else { self.tia[i] }),
                ..self
            }
        } else {
            self
        }
    }

    /// The bus after `value` is written to `addr`. The collision latches,
    /// INTIM, INSTAT, the ROM and unmapped addresses drop the write; a TIA
    /// register keeps the byte and performs its strobe; a timer register
    /// reloads the timer.
    pub open spec fn after_write(self, addr: u16, value: u8) -> BusView {
        let a = masked(addr);
        if a <= 0x3D {
            if is_latch(a) {
                self
            } else {
                BusView { tia: self.tia.update(a as int, value), ..self }.strobed(a)
            }
        } else if 0x80 <= a <= 0xFF {
            BusView { ram: self.ram.update(a - 0x80, value), ..self }
        } else if SWCHA <= a <= SWBCNT {
            BusView { pia: self.pia.update(a - SWCHA, value), ..self }
        } else if TIM1T <= a <= T1024T {
            BusView {
                timer_value: value,
                timer_interval: interval_of(a),
                timer_status: self.timer_status & 0x7F,
                timer_elapsed: 1,
                timer_block: true,
                ..self
            }
        } else {
            self
        }
    }

    /// The timer after one processor cycle.
    pub open spec fn ticked(self) -> BusView {
        if self.timer_elapsed == 1 {
            let underflow = self.timer_value == 0;
            let interval = if underflow { 1 } else { self.timer_interval };
            BusView {
                timer_interval: interval,
                timer_status: if underflow { self.timer_status | 0xC0 } else { self.timer_status },
                timer_value: if underflow { 255 } else { (self.timer_value - 1) as u8 },
                timer_elapsed: interval,
                ..self
            }
        } else {
            BusView { timer_elapsed: (self.timer_elapsed - 1) as u32, ..self }
        }
    }
}

/// The bus of the console.
pub struct Bus {
    pub tia: Vec<u8>,
    pub ram: Vec<u8>,
    pub pia: Vec<u8>,
    pub rom: Vec<u8>,
    pub timer_value: u8,
    pub timer_status: u8,
    pub timer_interval: u32,
    pub timer_elapsed: u32,
    pub timer_block: bool,
    pub player0: u32,
    pub player1: u32,
    pub missile0: u32,
    pub missile1: u32,
    pub ball: u32,
    pub scanline: u32,
    pub scanline_cycle: u32,
    pub halt: bool,
    pub vsync: bool,
}

impl View for Bus {
    type V = BusView;

    open spec fn view(&self) -> BusView {
        BusView {
            tia: self.tia@,
            ram: self.ram@,
            pia: self.pia@,
            rom: self.rom@,
            timer_value: self.timer_value,
            timer_status: self.timer_status,
            timer_interval: self.timer_interval,
            timer_elapsed: self.timer_elapsed,
            timer_block: self.timer_block,
            player0: self.player0,
            player1: self.player1,
            missile0: self.missile0,
            missile1: self.missile1,
            ball: self.ball,
            scanline: self.scanline,
            scanline_cycle: self.scanline_cycle,
            halt: self.halt,
            vsync: self.vsync,
        }
    }
}

fn zeroes(n: usize) -> (r: Vec<u8>)
    ensures
        r@ == Seq::new(n as nat, |i: int| 0u8),
{
    let mut r: Vec<u8> = Vec::new();
    while r.len() < n
        invariant
            r.len() <= n,
            forall|i: int| 0 <= i < r.len() ==> r@[i] == 0,
        decreases n - r.len(),
    {
        r.push(0);
    }
    assert(r@ =~= Seq::new(n as nat, |i: int| 0u8));
    r
}

impl Bus {
    /// A bus at power-on, with `rom` in the cartridge window.
    pub fn new(rom: Vec<u8>) -> (r: Bus)
        requires
            rom@.len() == ROM_SIZE,
        ensures
            r@.wf(),
            r@.tia == Seq::new(64, |i: int| 0u8),
            r@.ram == Seq::new(128, |i: int| 0u8),
            r@.pia == Seq::new(4, |i: int| 0u8),
            r@.rom == rom@,
            r.timer_value == 0,
            r.timer_status == 0,
            r.timer_interval == 1,
            r.timer_elapsed == 1,
            r.timer_block,
            r.scanline == 0,
            r.scanline_cycle == 0,
            !r.halt,
            !r.vsync,
            r.player0 == 0 && r.player1 == 0 && r.missile0 == 0 && r.missile1 == 0 && r.ball == 0,
    {
        Bus {
            tia: zeroes(64),
            ram: zeroes(128),
            pia: zeroes(4),
            rom,
            timer_value: 0,
            timer_status: 0,
            timer_interval: 1,
            timer_elapsed: 1,
            timer_block: true,
            player0: 0,
            player1: 0,
            missile0: 0,
            missile1: 0,
            ball: 0,
            scanline: 0,
            scanline_cycle: 0,
            halt: false,
            vsync: false,
        }
    }

    /// The byte at `addr`, without the side effect of a read.
    pub fn peek(&self, addr: u16) -> (r: u8)
        requires
            self@.wf(),
        ensures
            r == self@.peek(addr),
    {
        proof { lemma_masked(addr); }
        let a = addr & 0x1FFF;
        if a <= 0x3D {
            self.tia[a as usize]
        } else if 0x80 <= a && a <= 0xFF {
            self.ram[(a - 0x80) as usize]
        } else if SWCHA <= a && a <= SWBCNT {
            self.pia[(a - SWCHA) as usize]
        } else if a == INTIM {
            self.timer_value
        } else if a == INSTAT {
            self.timer_status
        } else if 0x1000 <= a {
            self.rom[(a - 0x1000) as usize]
        } else {
            0
        }
    }

    /// Read the byte at `addr`; reading INSTAT clears its bit 6 afterwards.
    pub fn read(&mut self, addr: u16) -> (r: u8)
        requires
            old(self)@.wf(),
        ensures
            r == old(self)@.peek(addr),
            final(self)@ == old(self)@.after_read(addr),
            final(self)@.wf(),
    {
        let r = self.peek(addr);
        if addr & 0x1FFF == INSTAT {
            self.timer_status = self.timer_status & 0xBF;
        }
        r
    }

    /// Set the column of a reset object to the beam position.
    fn reset_position(&self, fixup: u32) -> (r: u32)
        requires
            self@.wf(),
        ensures
            r == self@.reset_column(fixup),
    {
        if self.scanline_cycle < HORIZONTAL_BLANK {
            fixup
        } else {
            self.scanline_cycle - HORIZONTAL_BLANK
        }
    }

    fn move_object(position: u32, motion: u8) -> (r: u32)
        requires
            position < 160,
        ensures
            r == moved_by(position, motion),
            r < 160,
    {
        let n = (motion / 16) as u32;
        if n >= 8 {
            (position + 160 + n - 16) % 160
        } else {
            (position + 160 + n) % 160
        }
    }

    /// Apply each object's horizontal motion register (HMOVE).
    fn apply_horizontal_motion(&mut self)
        requires
            old(self)@.wf(),
        ensures
            final(self)@ == old(self)@.strobed(HMOVE),
    {
        self.player0 = Self::move_object(self.player0, self.tia[HMP0 as usize]);
        self.player1 = Self::move_object(self.player1, self.tia[HMP1 as usize]);
        self.missile0 = Self::move_object(self.missile0, self.tia[HMM0 as usize]);
        self.missile1 = Self::move_object(self.missile1, self.tia[HMM1 as usize]);
        self.ball = Self::move_object(self.ball, self.tia[HMBL as usize]);
    }

    /// Zero the TIA registers from `first` to `last`, both included.
    fn clear_registers(&mut self, first: u16, last: u16)
        requires
            old(self)@.wf(),
            first <= last < 64,
        ensures
            final(self)@ == (BusView {
                tia: Seq::new(64, |i: int| if first <= i <= last { 0u8 } else { old(self)@.tia[i] }),
                ..old(self)@
            }),
    {
        let mut r: usize = first as usize;
        while r <= last as usize
            invariant
                first <= r <= last + 1,
                last < 64,
                self.tia@.len() == 64,
                forall|i: int| 0 <= i < 64 ==> self.tia@[i] == (if first <= i < r { 0u8 } else { old(self)@.tia[i] }),
                self@ == (BusView { tia: self.tia@, ..old(self)@ }),
            decreases last + 1 - r,
        {
            self.tia.set(r, 0);
            r = r + 1;
        }
        assert(self.tia@ =~= Seq::new(64, |i: int| if first <= i <= last { 0u8 } else { old(self)@.tia[i] }));
    }

    /// Zero the horizontal motion registers (HMCLR).
    fn clear_horizontal_motion_registers(&mut self)
        requires
            old(self)@.wf(),
        ensures
            final(self)@ == old(self)@.strobed(HMCLR),
    {
        self.clear_registers(HMP0, HMBL);
    }

    /// Zero the eight collision latches (CXCLR).
    fn clear_collision_latches(&mut self)
        requires
            old(self)@.wf(),
        ensures
            final(self)@ == old(self)@.strobed(CXCLR),
    {
        self.clear_registers(CXM0P, CXPPMM);
    }

    /// Perform the side effect of a write to TIA register `a`.
    fn strobe(&mut self, a: u16)
        requires
            old(self)@.wf(),
            a <= 0x3D,
        ensures
            final(self)@ == old(self)@.strobed(a),
    {
        if a == WSYNC {
            self.halt = true;
        } else if a == RSYNC {
            self.scanline_cycle = 0;
        } else if a == RESP0 {
            self.player0 = self.reset_position(3);
        } else if a == RESP1 {
            self.player1 = self.reset_position(3);
        } else if a == RESM0 {
            self.missile0 = self.reset_position(2);
        } else if a == RESM1 {
            self.missile1 = self.reset_position(2);
        } else if a == RESBL {
            self.ball = self.reset_position(2);
        } else if a == HMOVE {
            self.apply_horizontal_motion();
        } else if a == HMCLR {
            self.clear_horizontal_motion_registers();
        } else if a == CXCLR {
            self.clear_collision_latches();
        }
    }

    /// Write `value` to `addr`, with the side effects of the register there.
    pub fn write(&mut self, addr: u16, value: u8)
        requires
            old(self)@.wf(),
        ensures
            final(self)@ == old(self)@.after_write(addr, value),
            final(self)@.wf(),
    {
        proof { lemma_masked(addr); }
        let a = addr & 0x1FFF;
        if a <= 0x3D {
            if CXM0P <= a && a <= CXPPMM {
                return;
            }
            self.tia.set(a as usize, value);
            self.strobe(a);
        } else if 0x80 <= a && a <= 0xFF {
            self.ram.set((a - 0x80) as usize, value);
        } else if SWCHA <= a && a <= SWBCNT {
            self.pia.set((a - SWCHA) as usize, value);
        } else if TIM1T <= a && a <= T1024T {
            self.timer_value = value;
            self.timer_interval = if a == TIM1T {
                1
            } else if a == TIM8T {
                8
            } else if a == TIM64T {
                64
            } else {
                1024
            };
            self.timer_status = self.timer_status & 0x7F;
            self.timer_elapsed = 1;
            self.timer_block = true;
        }
    }

    /// Advance the interval timer by one processor cycle.
    pub fn update_timer(&mut self)
        requires
            old(self)@.wf(),
        ensures
            final(self)@ == old(self)@.ticked(),
            final(self)@.wf(),
    {
        if self.timer_elapsed == 1 {
            if self.timer_value == 0 {
                self.timer_interval = 1;
                self.timer_status = self.timer_status | 0xC0;
                self.timer_value = 255;
            } else {
                self.timer_value = self.timer_value - 1;
            }
            self.timer_elapsed = self.timer_interval;
        } else {
            self.timer_elapsed = self.timer_elapsed - 1;
        }
    }
}

} // verus!
