//! Players: eight-pixel sprites with copies, stretching and reflection.
use vstd::prelude::*;
use crate::bus::{Bus, BusView};
use crate::console::Player;
use crate::location::{GRP0, GRP1, NUSIZ0, NUSIZ1, REFP0, REFP1};
use crate::utils::{bit, byte_to_boolean_array};

verus! {

/// Distance from an object's column to column `x`, going right and
/// wrapping around the screen.
pub open spec fn distance(position: u32, x: int) -> int {
    (x - position + 160) % 160
}

/// Pixel `i` (0 leftmost) of a player's graphics: bit 7 comes first unless
/// the player is reflected.
pub open spec fn sprite_bit(graphics: u8, reflected: bool, i: int) -> bool {
    if reflected { bit(graphics, i) } else { bit(graphics, 7 - i) }
}

/// Whether a copy drawn `offset` pixels right of the player, each pixel
/// `scale` wide, covers the pixel at distance `d`.
pub open spec fn copy_hit(graphics: u8, reflected: bool, scale: int, d: int, offset: int) -> bool {
    d >= offset && d - offset < 8 * scale && sprite_bit(graphics, reflected, (d - offset) / scale)
}

/// Width of a player's pixels for NUSIZ mode `n`: double (5) or quad (7).
pub open spec fn player_scale(n: int) -> int {
    if n == 5 { 2 } else if n == 7 { 4 } else { 1 }
}

/// Whether a player covers column `x`; NUSIZ bits 0 to 2 choose the copies
/// (16, 32 or 64 pixels apart) and the size.
pub open spec fn player_at(graphics: u8, reflected: bool, nusiz: u8, position: u32, x: int) -> bool {
    let d = distance(position, x);
    let n = nusiz % 8;
    let s = player_scale(n as int);
    copy_hit(graphics, reflected, s, d, 0)
        || ((n == 1 || n == 3) && copy_hit(graphics, reflected, s, d, 16))
        || ((n == 2 || n == 3 || n == 6) && copy_hit(graphics, reflected, s, d, 32))
        || ((n == 4 || n == 6) && copy_hit(graphics, reflected, s, d, 64))
}

/// Whether player 0 covers column `x`.
pub open spec fn player0_at(b: BusView, x: int) -> bool {
    player_at(b.reg(GRP0), b.reg(REFP0) & 0x08 != 0, b.reg(NUSIZ0), b.player0, x)
}

/// Whether player 1 covers column `x`.
pub open spec fn player1_at(b: BusView, x: int) -> bool {
    player_at(b.reg(GRP1), b.reg(REFP1) & 0x08 != 0, b.reg(NUSIZ1), b.player1, x)
}

/// The graphics of a player, as bits, least significant first.
pub fn player_bits(bus: &Bus, player: Player) -> (r: [bool; 8])
    requires
        bus@.wf(),
    ensures
        forall|i: int|
            0 <= i < 8 ==> r@[i] == bit(
                (match player {
                    Player::One => bus@.reg(GRP0),
                    Player::Two => bus@.reg(GRP1),
                }),
                i,
            ),
{
    match player {
        Player::One => byte_to_boolean_array(bus.tia[GRP0 as usize]),
        Player::Two => byte_to_boolean_array(bus.tia[GRP1 as usize]),
    }
}

/// Whether a player is reflected (REFPx bit 3).
pub fn is_player_mirrored(bus: &Bus, player: Player) -> (r: bool)
    requires
        bus@.wf(),
    ensures
        r == (match player {
            Player::One => bus@.reg(REFP0) & 0x08 != 0,
            Player::Two => bus@.reg(REFP1) & 0x08 != 0,
        }),
{
    match player {
        Player::One => bus.tia[REFP0 as usize] & 0x08 != 0,
        Player::Two => bus.tia[REFP1 as usize] & 0x08 != 0,
    }
}

fn copy_covers(bits: &[bool; 8], graphics: u8, reflected: bool, scale: u32, d: u32, offset: u32) -> (r: bool)
    requires
        forall|i: int| 0 <= i < 8 ==> bits@[i] == bit(graphics, i),
        1 <= scale <= 4,
        d < 160,
    ensures
        r == copy_hit(graphics, reflected, scale as int, d as int, offset as int),
{
    if d >= offset && d - offset < 8 * scale {
        let i = (d - offset) / scale;
        proof {
            let ghost q: int = (d - offset) as int;
            assert(q / (scale as int) < 8) by (nonlinear_arith)
                requires
                    0 <= q < 8 * (scale as int),
                    1 <= scale,
            ;
        }
        if reflected { bits[i as usize] } else { bits[(7 - i) as usize] }
    } else {
        false
    }
}

/// Whether `player` covers column `x`.
pub fn player_covers(bus: &Bus, player: Player, x: u32) -> (r: bool)
    requires
        bus@.wf(),
        x < 160,
    ensures
        r == (match player {
            Player::One => player0_at(bus@, x as int),
            Player::Two => player1_at(bus@, x as int),
        }),
{
    let bits = player_bits(bus, player);
    let reflected = is_player_mirrored(bus, player);
    let (graphics, nusiz, position) = match player {
        Player::One => (bus.tia[GRP0 as usize], bus.tia[NUSIZ0 as usize], bus.player0),
        Player::Two => (bus.tia[GRP1 as usize], bus.tia[NUSIZ1 as usize], bus.player1),
    };
    let d = (x + 160 - position) % 160;
    let n = nusiz % 8;
    let s: u32 = if n == 5 { 2 } else if n == 7 { 4 } else { 1 };
    copy_covers(&bits, graphics, reflected, s, d, 0)
        || ((n == 1 || n == 3) && copy_covers(&bits, graphics, reflected, s, d, 16))
        || ((n == 2 || n == 3 || n == 6) && copy_covers(&bits, graphics, reflected, s, d, 32))
        || ((n == 4 || n == 6) && copy_covers(&bits, graphics, reflected, s, d, 64))
}

} // verus!
