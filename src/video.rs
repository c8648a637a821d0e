//! Composition of a scanline and collision detection.
use vstd::prelude::*;
use crate::bus::{Bus, BusView};
use crate::color::{
    background_color, ball_color, missile0_color, missile1_color, player0_color, player1_color,
    register_rgb, register_to_rgb,
};
use crate::console::{Player, Rgb};
use crate::location::{COLUBK, COLUP0, COLUP1, COLUPF, CXM0P};
use crate::missile::{ball_at, ball_covers, missile0_at, missile1_at, missile_covers};
use crate::playfield::{
    playfield_at, playfield_bits, playfield_cell, playfield_color_register, playfield_covers,
    playfield_priority, playfield_register, priority,
};
use crate::sprite::{player0_at, player1_at, player_covers};

verus! {

/// The color register shown at column `x`. Without playfield priority the
/// objects are drawn over the playfield in the order players (1, then 0),
/// missiles (1, then 0), ball; with it the playfield comes last, on top.
pub open spec fn pixel_register(b: BusView, x: int) -> u16 {
    let pf = playfield_at(b, x);
    if priority(b) && pf {
        playfield_register(b, x)
    } else if ball_at(b, x) {
        COLUPF
    } else if missile0_at(b, x) {
        COLUP0
    } else if missile1_at(b, x) {
        COLUP1
    } else if player0_at(b, x) {
        COLUP0
    } else if player1_at(b, x) {
        COLUP1
    } else if pf {
        playfield_register(b, x)
    } else {
        COLUBK
    }
}

/// The pixel shown at column `x`.
pub open spec fn pixel(b: BusView, x: int) -> Rgb {
    register_rgb(b.reg(pixel_register(b, x)))
}

/// The six objects: 0 and 1 the players, 2 and 3 the missiles, 4 the ball,
/// 5 the playfield.
pub open spec fn object_at(b: BusView, k: int, x: int) -> bool {
    if k == 0 {
        player0_at(b, x)
    } else if k == 1 {
        player1_at(b, x)
    } else if k == 2 {
        missile0_at(b, x)
    } else if k == 3 {
        missile1_at(b, x)
    } else if k == 4 {
        ball_at(b, x)
    } else {
        playfield_at(b, x)
    }
}

/// Whether objects `i` and `j` share a column of the line.
pub open spec fn collides(b: BusView, i: int, j: int) -> bool {
    exists|x: int| 0 <= x < 160 && object_at(b, i, x) && object_at(b, j, x)
}

/// The pair of objects latched in bit 7 (`high`) or bit 6 of collision
/// register `r`, bit 7 first:
/// - CXM0P: missile 0 and player 1; missile 0 and player 0,
/// - CXM1P: missile 1 and player 0; missile 1 and player 1,
/// - CXP0FB: player 0 and playfield; player 0 and ball,
/// - CXP1FB: player 1 and playfield; player 1 and ball,
/// - CXM0FB: missile 0 and playfield; missile 0 and ball,
/// - CXM1FB: missile 1 and playfield; missile 1 and ball,
/// - CXBLPF: ball and playfield,
/// - CXPPMM: player 0 and player 1; missile 0 and missile 1.
pub open spec fn latch_pair(r: int, high: bool) -> (int, int) {
    if r == 0 {
        if high { (2, 1) } else { (2, 0) }
    } else if r == 1 {
        if high { (3, 0) } else { (3, 1) }
    } else if r == 2 {
        if high { (0, 5) } else { (0, 4) }
    } else if r == 3 {
        if high { (1, 5) } else { (1, 4) }
    } else if r == 4 {
        if high { (2, 5) } else { (2, 4) }
    } else if r == 5 {
        if high { (3, 5) } else { (3, 4) }
    } else if r == 6 {
        (4, 5)
    } else {
        if high { (0, 1) } else { (2, 3) }
    }
}

/// The bits that the line sets in collision register `r` (bit 6 of CXBLPF is unused).
pub open spec fn latch_bits(b: BusView, r: int) -> u8 {
    let (hi, hj) = latch_pair(r, true);
    let (li, lj) = latch_pair(r, false);
    ((if collides(b, hi, hj) { 0x80int } else { 0 }) + (if r != 6 && collides(b, li, lj) { 0x40int } else { 0 })) as u8
}

/// The bus with the collisions of the line latched.
pub open spec fn latched(b: BusView) -> BusView {
    BusView {
        tia: Seq::new(64, |i: int| if CXM0P <= i < CXM0P + 8 { b.tia[i] | latch_bits(b, i - CXM0P) } else { b.tia[i] }),
        ..b
    }
}

/// Draw the playfield over `scanline`.
pub fn draw_playfield(bus: &Bus, scanline: &mut Vec<Rgb>)
    requires
        bus@.wf(),
        old(scanline)@.len() == 160,
    ensures
        final(scanline)@.len() == 160,
        forall|x: int| 0 <= x < 160 ==> #[trigger] final(scanline)@[x] == if playfield_at(bus@, x) {
            register_rgb(bus@.reg(playfield_register(bus@, x)))
        } else {
            old(scanline)@[x]
        },
{
    let bits = playfield_bits(bus);
    let mut x: u32 = 0;
    while x < 160
        invariant
            bus@.wf(),
            x <= 160,
            scanline@.len() == 160,
            forall|k: int| 0 <= k < 20 ==> bits@[k] == playfield_cell(bus@, k),
            forall|y: int| 0 <= y < 160 ==> #[trigger] scanline@[y] == if y < x && playfield_at(bus@, y) {
                register_rgb(bus@.reg(playfield_register(bus@, y)))
            } else {
                old(scanline)@[y]
            },
        decreases 160 - x,
    {
        if playfield_covers(bus, &bits, x) {
            let register = playfield_color_register(bus, x);
            let color = register_to_rgb(bus.tia[register as usize]);
            scanline.set(x as usize, color);
        }
        x = x + 1;
    }
}

/// Draw the players over `scanline`, player 0 above player 1.
pub fn draw_sprites(bus: &Bus, scanline: &mut Vec<Rgb>)
    requires
        bus@.wf(),
        old(scanline)@.len() == 160,
    ensures
        final(scanline)@.len() == 160,
        forall|x: int| 0 <= x < 160 ==> #[trigger] final(scanline)@[x] == if player0_at(bus@, x) {
            register_rgb(bus@.reg(COLUP0))
        } else if player1_at(bus@, x) {
            register_rgb(bus@.reg(COLUP1))
        } else {
            old(scanline)@[x]
        },
{
    let color0 = player0_color(bus);
    let color1 = player1_color(bus);
    let mut x: u32 = 0;
    while x < 160
        invariant
            bus@.wf(),
            x <= 160,
            scanline@.len() == 160,
            color0 == register_rgb(bus@.reg(COLUP0)),
            color1 == register_rgb(bus@.reg(COLUP1)),
            forall|y: int| 0 <= y < 160 ==> #[trigger] scanline@[y] == if y < x && player0_at(bus@, y) {
                color0
            } else if y < x && player1_at(bus@, y) {
                color1
            } else {
                old(scanline)@[y]
            },
        decreases 160 - x,
    {
        if player_covers(bus, Player::One, x) {
            scanline.set(x as usize, color0);
        } else if player_covers(bus, Player::Two, x) {
            scanline.set(x as usize, color1);
        }
        x = x + 1;
    }
}

/// Draw the missiles over `scanline`, missile 0 above missile 1, each in
/// the color of its player.
pub fn draw_missiles(bus: &Bus, scanline: &mut Vec<Rgb>)
    requires
        bus@.wf(),
        old(scanline)@.len() == 160,
    ensures
        final(scanline)@.len() == 160,
        forall|x: int| 0 <= x < 160 ==> #[trigger] final(scanline)@[x] == if missile0_at(bus@, x) {
            register_rgb(bus@.reg(COLUP0))
        } else if missile1_at(bus@, x) {
            register_rgb(bus@.reg(COLUP1))
        } else {
            old(scanline)@[x]
        },
{
    let color0 = missile0_color(bus);
    let color1 = missile1_color(bus);
    let mut x: u32 = 0;
    while x < 160
        invariant
            bus@.wf(),
            x <= 160,
            scanline@.len() == 160,
            color0 == register_rgb(bus@.reg(COLUP0)),
            color1 == register_rgb(bus@.reg(COLUP1)),
            forall|y: int| 0 <= y < 160 ==> #[trigger] scanline@[y] == if y < x && missile0_at(bus@, y) {
                color0
            } else if y < x && missile1_at(bus@, y) {
                color1
            } else {
                old(scanline)@[y]
            },
        decreases 160 - x,
    {
        if missile_covers(bus, Player::One, x) {
            scanline.set(x as usize, color0);
        } else if missile_covers(bus, Player::Two, x) {
            scanline.set(x as usize, color1);
        }
        x = x + 1;
    }
}

/// Draw the ball over `scanline`, in the playfield color.
pub fn draw_ball(bus: &Bus, scanline: &mut Vec<Rgb>)
    requires
        bus@.wf(),
        old(scanline)@.len() == 160,
    ensures
        final(scanline)@.len() == 160,
        forall|x: int| 0 <= x < 160 ==> #[trigger] final(scanline)@[x] == if ball_at(bus@, x) {
            register_rgb(bus@.reg(COLUPF))
        } else {
            old(scanline)@[x]
        },
{
    let color = ball_color(bus);
    let mut x: u32 = 0;
    while x < 160
        invariant
            bus@.wf(),
            x <= 160,
            scanline@.len() == 160,
            color == register_rgb(bus@.reg(COLUPF)),
            forall|y: int| 0 <= y < 160 ==> #[trigger] scanline@[y] == if y < x && ball_at(bus@, y) {
                color
            } else {
                old(scanline)@[y]
            },
        decreases 160 - x,
    {
        if ball_covers(bus, x) {
            scanline.set(x as usize, color);
        }
        x = x + 1;
    }
}

/// Compose the line that the beam draws with the current registers.
pub fn create_scanline(bus: &Bus) -> (r: Vec<Rgb>)
    requires
        bus@.wf(),
    ensures
        r@.len() == 160,
        forall|x: int| 0 <= x < 160 ==> #[trigger] r@[x] == pixel(bus@, x),
{
    let background = background_color(bus);
    let mut scanline: Vec<Rgb> = Vec::new();
    while scanline.len() < 160
        invariant
            scanline@.len() <= 160,
            forall|y: int| 0 <= y < scanline@.len() ==> #[trigger] scanline@[y] == background,
        decreases 160 - scanline.len(),
    {
        scanline.push(background);
    }
    if playfield_priority(bus) {
        draw_sprites(bus, &mut scanline);
        draw_missiles(bus, &mut scanline);
        draw_ball(bus, &mut scanline);
        draw_playfield(bus, &mut scanline);
    } else {
        draw_playfield(bus, &mut scanline);
        draw_sprites(bus, &mut scanline);
        draw_missiles(bus, &mut scanline);
        draw_ball(bus, &mut scanline);
    }
    scanline
}

/// Whether object `k` covers each column of the line.
fn object_row(bus: &Bus, k: u8) -> (r: Vec<bool>)
    requires
        bus@.wf(),
        k < 6,
    ensures
        r@.len() == 160,
        forall|x: int| 0 <= x < 160 ==> #[trigger] r@[x] == object_at(bus@, k as int, x),
{
    let bits = playfield_bits(bus);
    let mut row: Vec<bool> = Vec::new();
    while row.len() < 160
        invariant
            bus@.wf(),
            k < 6,
            row@.len() <= 160,
            forall|k: int| 0 <= k < 20 ==> bits@[k] == playfield_cell(bus@, k),
            forall|x: int| 0 <= x < row@.len() ==> #[trigger] row@[x] == object_at(bus@, k as int, x),
        decreases 160 - row.len(),
    {
        let x = row.len() as u32;
        let covered = if k == 0 {
            player_covers(bus, Player::One, x)
        } else if k == 1 {
            player_covers(bus, Player::Two, x)
        } else if k == 2 {
            missile_covers(bus, Player::One, x)
        } else if k == 3 {
            missile_covers(bus, Player::Two, x)
        } else if k == 4 {
            ball_covers(bus, x)
        } else {
            playfield_covers(bus, &bits, x)
        };
        row.push(covered);
    }
    row
}

/// Whether objects `i` and `j`, covering the columns of rows `a` and `c`,
/// share a column.
fn overlap(a: &Vec<bool>, c: &Vec<bool>, Ghost(b): Ghost<BusView>, Ghost(i): Ghost<int>, Ghost(j): Ghost<int>) -> (r: bool)
    requires
        a@.len() == 160,
        c@.len() == 160,
        forall|x: int| 0 <= x < 160 ==> a@[x] == object_at(b, i, x),
        forall|x: int| 0 <= x < 160 ==> c@[x] == object_at(b, j, x),
    ensures
        r == collides(b, i, j),
{
    let mut x: usize = 0;
    while x < 160
        invariant
            x <= 160,
            a@.len() == 160,
            c@.len() == 160,
            forall|y: int| 0 <= y < 160 ==> a@[y] == object_at(b, i, y),
            forall|y: int| 0 <= y < 160 ==> c@[y] == object_at(b, j, y),
            forall|y: int| 0 <= y < x ==> !(object_at(b, i, y) && #[trigger] object_at(b, j, y)),
        decreases 160 - x,
    {
        if a[x] && c[x] {
            assert(object_at(b, i, x as int) && object_at(b, j, x as int));
            return true;
        }
        x = x + 1;
    }
    false
}

/// Latch in the collision registers the overlaps of the objects on the
/// line; bits already set stay set.
pub fn latch_collisions(bus: &mut Bus)
    requires
        old(bus)@.wf(),
    ensures
        final(bus)@ == latched(old(bus)@),
        final(bus)@.wf(),
{
    let ghost b = bus@;
    let mut rows: Vec<Vec<bool>> = Vec::new();
    let mut k: u8 = 0;
    while k < 6
        invariant
            bus@ == b,
            b.wf(),
            k <= 6,
            rows@.len() == k,
            forall|i: int, x: int| 0 <= i < k && 0 <= x < 160 ==> (#[trigger] rows@[i]@[x]) == object_at(b, i, x),
            forall|i: int| 0 <= i < k ==> (#[trigger] rows@[i]@.len()) == 160,
        decreases 6 - k,
    {
        rows.push(object_row(bus, k));
        k = k + 1;
    }
    let mut r: usize = 0;
    assert(bus@.tia =~= Seq::new(64, |i: int| if CXM0P <= i < CXM0P + r { b.tia[i] | latch_bits(b, i - CXM0P) } else { b.tia[i] }));
    while r < 8
        invariant
            b.wf(),
            r <= 8,
            rows@.len() == 6,
            forall|i: int, x: int| 0 <= i < 6 && 0 <= x < 160 ==> (#[trigger] rows@[i]@[x]) == object_at(b, i, x),
            forall|i: int| 0 <= i < 6 ==> (#[trigger] rows@[i]@.len()) == 160,
            bus@ == (BusView {
                tia: Seq::new(64, |i: int| if CXM0P <= i < CXM0P + r { b.tia[i] | latch_bits(b, i - CXM0P) } else { b.tia[i] }),
                ..b
            }),
        decreases 8 - r,
    {
        let (hi, hj, li, lj): (usize, usize, usize, usize) = if r == 0 {
            (2, 1, 2, 0)
        } else if r == 1 {
            (3, 0, 3, 1)
        } else if r == 2 {
            (0, 5, 0, 4)
        } else if r == 3 {
            (1, 5, 1, 4)
        } else if r == 4 {
            (2, 5, 2, 4)
        } else if r == 5 {
            (3, 5, 3, 4)
        } else if r == 6 {
            (4, 5, 4, 5)
        } else {
            (0, 1, 2, 3)
        };
        let high = overlap(&rows[hi], &rows[hj], Ghost(b), Ghost(hi as int), Ghost(hj as int));
        let low = r != 6 && overlap(&rows[li], &rows[lj], Ghost(b), Ghost(li as int), Ghost(lj as int));
        let bits: u8 = (if high { 0x80 } else { 0 }) + (if low { 0x40 } else { 0 });
        let register = CXM0P as usize + r;
        let value = bus.tia[register] | bits;
        bus.tia.set(register, value);
        r = r + 1;
        proof {
            assert(bus@.tia =~= Seq::new(64, |i: int| if CXM0P <= i < CXM0P + r { b.tia[i] | latch_bits(b, i - CXM0P) } else { b.tia[i] }));
        }
    }
    assert(bus@ =~= latched(b));
}

} // verus!
