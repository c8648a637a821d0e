//! Missiles and the ball: one-line objects of width 1, 2, 4 or 8.
use vstd::prelude::*;
use crate::bus::{Bus, BusView};
use crate::console::Player;
use crate::location::{CTRLPF, ENABL, ENAM0, ENAM1, NUSIZ0, NUSIZ1};
use crate::sprite::distance;

verus! {

/// The width selected by a two-bit size field.
pub open spec fn object_width(size: int) -> int {
    if size == 0 { 1 } else if size == 1 { 2 } else if size == 2 { 4 } else { 8 }
}

/// Whether an object enabled by bit 1 of `enable`, `width` pixels wide,
/// covers column `x`.
pub open spec fn line_at(enable: u8, size: int, position: u32, x: int) -> bool {
    enable & 0x02 != 0 && distance(position, x) < object_width(size)
}

/// Whether missile 0 covers column `x` (width from NUSIZ0 bits 4 and 5).
pub open spec fn missile0_at(b: BusView, x: int) -> bool {
    line_at(b.reg(ENAM0), (b.reg(NUSIZ0) / 16 % 4) as int, b.missile0, x)
}

/// Whether missile 1 covers column `x` (width from NUSIZ1 bits 4 and 5).
pub open spec fn missile1_at(b: BusView, x: int) -> bool {
    line_at(b.reg(ENAM1), (b.reg(NUSIZ1) / 16 % 4) as int, b.missile1, x)
}

/// Whether the ball covers column `x` (width from CTRLPF bits 4 and 5).
pub open spec fn ball_at(b: BusView, x: int) -> bool {
    line_at(b.reg(ENABL), (b.reg(CTRLPF) / 16 % 4) as int, b.ball, x)
}

/// Whether a missile is enabled (ENAMx bit 1).
pub fn is_missile_enabled(bus: &Bus, player: Player) -> (r: bool)
    requires
        bus@.wf(),
    ensures
        r == (match player {
            Player::One => bus@.reg(ENAM0) & 0x02 != 0,
            Player::Two => bus@.reg(ENAM1) & 0x02 != 0,
        }),
{
    match player {
        Player::One => bus.tia[ENAM0 as usize] & 0x02 != 0,
        Player::Two => bus.tia[ENAM1 as usize] & 0x02 != 0,
    }
}

/// Whether the ball is enabled (ENABL bit 1).
pub fn is_ball_enabled(bus: &Bus) -> (r: bool)
    requires
        bus@.wf(),
    ensures
        r == (bus@.reg(ENABL) & 0x02 != 0),
{
    bus.tia[ENABL as usize] & 0x02 != 0
}

fn width(size: u8) -> (r: u32)
    requires
        size < 4,
    ensures
        r == object_width(size as int),
{
    if size == 0 { 1 } else if size == 1 { 2 } else if size == 2 { 4 } else { 8 }
}

/// Whether the missile of `player` covers column `x`.
pub fn missile_covers(bus: &Bus, player: Player, x: u32) -> (r: bool)
    requires
        bus@.wf(),
        x < 160,
    ensures
        r == (match player {
            Player::One => missile0_at(bus@, x as int),
            Player::Two => missile1_at(bus@, x as int),
        }),
{
    let (nusiz, position) = match player {
        Player::One => (bus.tia[NUSIZ0 as usize], bus.missile0),
        Player::Two => (bus.tia[NUSIZ1 as usize], bus.missile1),
    };
    is_missile_enabled(bus, player) && (x + 160 - position) % 160 < width(nusiz / 16 % 4)
}

/// Whether the ball covers column `x`.
pub fn ball_covers(bus: &Bus, x: u32) -> (r: bool)
    requires
        bus@.wf(),
        x < 160,
    ensures
        r == ball_at(bus@, x as int),
{
    is_ball_enabled(bus) && (x + 160 - bus.ball) % 160 < width(bus.tia[CTRLPF as usize] / 16 % 4)
}

} // verus!
