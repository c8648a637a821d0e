//! The playfield: twenty cells of four pixels across each half of a line.
use vstd::prelude::*;
use crate::bus::{Bus, BusView};
use crate::location::{COLUP0, COLUP1, COLUPF, CTRLPF, PF0, PF1, PF2};
use crate::utils::{bit, byte_to_boolean_array};

verus! {

/// Cell `k` (0 to 19) of the left half: PF0 bits 4 to 7, then PF1 bits 7
/// down to 0, then PF2 bits 0 to 7.
pub open spec fn playfield_cell(b: BusView, k: int) -> bool {
    if k < 4 {
        bit(b.reg(PF0), 4 + k)
    } else if k < 12 {
        bit(b.reg(PF1), 11 - k)
    } else {
        bit(b.reg(PF2), k - 12)
    }
}

/// CTRLPF bit 0: the right half mirrors the left one.
pub open spec fn mirror_mode(b: BusView) -> bool {
    b.reg(CTRLPF) & 0x01 != 0
}

/// CTRLPF bit 1: the halves take the colors of player 0 and player 1.
pub open spec fn score_mode(b: BusView) -> bool {
    b.reg(CTRLPF) & 0x02 != 0
}

/// CTRLPF bit 2: the playfield is drawn above the other objects.
pub open spec fn priority(b: BusView) -> bool {
    b.reg(CTRLPF) & 0x04 != 0
}

/// Whether the playfield covers column `x`.
pub open spec fn playfield_at(b: BusView, x: int) -> bool {
    if x < 80 {
        playfield_cell(b, x / 4)
    } else if mirror_mode(b) {
        playfield_cell(b, 19 - (x - 80) / 4)
    } else {
        playfield_cell(b, (x - 80) / 4)
    }
}

/// The color register of the playfield at column `x`.
pub open spec fn playfield_register(b: BusView, x: int) -> u16 {
    if score_mode(b) {
        if x < 80 { COLUP0 } else { COLUP1 }
    } else {
        COLUPF
    }
}

pub fn playfield_mirror_mode(bus: &Bus) -> (r: bool)
    requires
        bus@.wf(),
    ensures
        r == mirror_mode(bus@),
{
    bus.tia[CTRLPF as usize] & 0x01 != 0
}

pub fn playfield_score_mode(bus: &Bus) -> (r: bool)
    requires
        bus@.wf(),
    ensures
        r == score_mode(bus@),
{
    bus.tia[CTRLPF as usize] & 0x02 != 0
}

pub fn playfield_priority(bus: &Bus) -> (r: bool)
    requires
        bus@.wf(),
    ensures
        r == priority(bus@),
{
    bus.tia[CTRLPF as usize] & 0x04 != 0
}

/// The twenty cells of the left half.
pub fn playfield_bits(bus: &Bus) -> (r: [bool; 20])
    requires
        bus@.wf(),
    ensures
        forall|k: int| 0 <= k < 20 ==> r@[k] == playfield_cell(bus@, k),
{
    let pf0 = byte_to_boolean_array(bus.tia[PF0 as usize]);
    let pf1 = byte_to_boolean_array(bus.tia[PF1 as usize]);
    let pf2 = byte_to_boolean_array(bus.tia[PF2 as usize]);
    [
        pf0[4], pf0[5], pf0[6], pf0[7],
        pf1[7], pf1[6], pf1[5], pf1[4], pf1[3], pf1[2], pf1[1], pf1[0],
        pf2[0], pf2[1], pf2[2], pf2[3], pf2[4], pf2[5], pf2[6], pf2[7],
    ]
}

/// Whether the playfield covers column `x`, from its cells.
pub fn playfield_covers(bus: &Bus, bits: &[bool; 20], x: u32) -> (r: bool)
    requires
        bus@.wf(),
        x < 160,
        forall|k: int| 0 <= k < 20 ==> bits@[k] == playfield_cell(bus@, k),
    ensures
        r == playfield_at(bus@, x as int),
{
    if x < 80 {
        bits[(x / 4) as usize]
    } else if playfield_mirror_mode(bus) {
        bits[(19 - (x - 80) / 4) as usize]
    } else {
        bits[((x - 80) / 4) as usize]
    }
}

/// The color register of the playfield at column `x`.
pub fn playfield_color_register(bus: &Bus, x: u32) -> (r: u16)
    requires
        bus@.wf(),
    ensures
        r == playfield_register(bus@, x as int),
{
    if playfield_score_mode(bus) {
        if x < 80 { COLUP0 } else { COLUP1 }
    } else {
        COLUPF
    }
}

} // verus!
