//! The NTSC palette.
//!
//! A color register holds `CCCC LLL0`: bits 7 to 4 select one of sixteen
//! colors and bits 3 to 1 one of eight luminances; bit 0 is ignored.
use vstd::prelude::*;
use crate::bus::Bus;
use crate::location::{COLUBK, COLUP0, COLUP1, COLUPF};

verus! {

/// The eight luminances, from darkest to brightest.
#[derive(PartialEq, Eq, Structural, Clone, Copy, Debug)]
pub enum Luminance {
    Darkest,
    VeryDark,
    Dark,
    SlightlyDark,
    SlightlyBright,
    Bright,
    VeryBright,
    Brightest,
}

/// The sixteen NTSC colors.
#[derive(PartialEq, Eq, Structural, Clone, Copy, Debug)]
pub enum Color {
    White,
    Gold,
    Orange,
    BrightOrange,
    Pink,
    Purple,
    PurpleBlue,
    Blue,
    Blue2,
    LightBlue,
    TorqueGreen,
    GreenBlue,
    Green,
    YellowGreen,
    OrangeGreen,
    LightOrange,
}

/// The number of a luminance, 0 to 7.
pub open spec fn luminance_index(l: Luminance) -> int {
    match l {
        Luminance::Darkest => 0,
        Luminance::VeryDark => 1,
        Luminance::Dark => 2,
        Luminance::SlightlyDark => 3,
        Luminance::SlightlyBright => 4,
        Luminance::Bright => 5,
        Luminance::VeryBright => 6,
        Luminance::Brightest => 7,
    }
}

/// The number of a color, 0 to 15.
pub open spec fn color_index(c: Color) -> int {
    match c {
        Color::White => 0,
        Color::Gold => 1,
        Color::Orange => 2,
        Color::BrightOrange => 3,
        Color::Pink => 4,
        Color::Purple => 5,
        Color::PurpleBlue => 6,
        Color::Blue => 7,
        Color::Blue2 => 8,
        Color::LightBlue => 9,
        Color::TorqueGreen => 10,
        Color::GreenBlue => 11,
        Color::Green => 12,
        Color::YellowGreen => 13,
        Color::OrangeGreen => 14,
        Color::LightOrange => 15,
    }
}

/// The NTSC palette as 0xRRGGBB, eight luminances of color 0, then of color
/// 1, and so on.
pub open spec fn ntsc_palette() -> Seq<u32> {
    seq![
        0x000000, 0x404040, 0x6C6C6C, 0x909090, 0xB0B0B0, 0xC8C8C8, 0xDCDCDC, 0xECECEC,
        0x444400, 0x646410, 0x848424, 0xA0A034, 0xB8B840, 0xD0D050, 0xE8E85C, 0xFCFC68,
        0x702800, 0x844414, 0x985C28, 0xAC783C, 0xBC8C4C, 0xCCA05C, 0xDCB468, 0xECC878,
        0x841800, 0x983418, 0xAC5030, 0xC06848, 0xD0805C, 0xE09470, 0xECA880, 0xFCBC94,
        0x880000, 0x9C2020, 0xB03C3C, 0xC05858, 0xD07070, 0xE08888, 0xECA0A0, 0xFCB4B4,
        0x78005C, 0x8C2074, 0xA03C88, 0xB0589C, 0xC070B0, 0xD084C0, 0xDC9CD0, 0xECB0E0,
        0x480078, 0x602090, 0x783CA4, 0x8C58B8, 0xA070CC, 0xB484DC, 0xC49CEC, 0xD4B0FC,
        0x140084, 0x302098, 0x4C3CAC, 0x6858C0, 0x7C70D0, 0x9488E0, 0xA8A0EC, 0xBCB4FC,
        0x000088, 0x1C209C, 0x3840B0, 0x505CC0, 0x6874D0, 0x7C8CE0, 0x90A4EC, 0xA4B8FC,
        0x00187C, 0x1C3890, 0x3854A8, 0x5070BC, 0x6888CC, 0x7C9CDC, 0x90B4EC, 0xA4C8FC,
        0x002C5C, 0x1C4C78, 0x386890, 0x5084AC, 0x689CC0, 0x7CB4D4, 0x90CCE8, 0xA4E0FC,
        0x003C2C, 0x1C5C48, 0x387C64, 0x509C80, 0x68B494, 0x7CD0AC, 0x90E4C0, 0xA4FCD4,
        0x003C00, 0x205C20, 0x407C40, 0x5C9C5C, 0x74B474, 0x8CD08C, 0xA4E4A4, 0xB8FCB8,
        0x143800, 0x345C1C, 0x507C38, 0x6C9850, 0x84B468, 0x9CCC7C, 0xB4E490, 0xC8FCA4,
        0x2C3000, 0x4C501C, 0x687034, 0x848C4C, 0x9CA864, 0xB4C078, 0xCCD488, 0xE0EC9C,
        0x442800, 0x644818, 0x846830, 0xA08444, 0xB89C58, 0xD0B46C, 0xE8CC7C, 0xFCE08C,
    ]
}

/// The red, green and blue bytes of 0xRRGGBB.
pub open spec fn rgb_of(e: u32) -> (u8, u8, u8) {
    ((e / 65536 % 256) as u8, (e / 256 % 256) as u8, (e % 256) as u8)
}

/// The RGB pixel of a color register value.
pub open spec fn register_rgb(value: u8) -> (u8, u8, u8) {
    rgb_of(ntsc_palette()[(value / 16) * 8 + (value / 2) % 8])
}

/// The luminance numbered `value`.
pub fn octal_to_luminance(value: u8) -> (r: Luminance)
    requires
        value < 8,
    ensures
        luminance_index(r) == value,
{
    match value {
        0 => Luminance::Darkest,
        1 => Luminance::VeryDark,
        2 => Luminance::Dark,
        3 => Luminance::SlightlyDark,
        4 => Luminance::SlightlyBright,
        5 => Luminance::Bright,
        6 => Luminance::VeryBright,
        _ => Luminance::Brightest,
    }
}

/// The color numbered `value`.
pub fn hexadecimal_to_color(value: u8) -> (r: Color)
    requires
        value < 16,
    ensures
        color_index(r) == value,
{
    match value {
        0 => Color::White,
        1 => Color::Gold,
        2 => Color::Orange,
        3 => Color::BrightOrange,
        4 => Color::Pink,
        5 => Color::Purple,
        6 => Color::PurpleBlue,
        7 => Color::Blue,
        8 => Color::Blue2,
        9 => Color::LightBlue,
        10 => Color::TorqueGreen,
        11 => Color::GreenBlue,
        12 => Color::Green,
        13 => Color::YellowGreen,
        14 => Color::OrangeGreen,
        _ => Color::LightOrange,
    }
}

/// The color and the luminance that a color register value selects.
pub fn color_and_luminance(value: u8) -> (r: (Color, Luminance))
    ensures
        color_index(r.0) == value / 16,
        luminance_index(r.1) == (value / 2) % 8,
{
    let color = value / 16;
    let luminance = (value / 2) % 8;
    (hexadecimal_to_color(color), octal_to_luminance(luminance))
}

/// The RGB value of a color at a luminance.
pub fn to_rgb(color_luminance: (Color, Luminance)) -> (r: (u8, u8, u8))
    ensures
        r == rgb_of(ntsc_palette()[color_index(color_luminance.0) * 8 + luminance_index(color_luminance.1)]),
{
    let palette: [u32; 128] = [
        0x000000, 0x404040, 0x6C6C6C, 0x909090, 0xB0B0B0, 0xC8C8C8, 0xDCDCDC, 0xECECEC,
        0x444400, 0x646410, 0x848424, 0xA0A034, 0xB8B840, 0xD0D050, 0xE8E85C, 0xFCFC68,
        0x702800, 0x844414, 0x985C28, 0xAC783C, 0xBC8C4C, 0xCCA05C, 0xDCB468, 0xECC878,
        0x841800, 0x983418, 0xAC5030, 0xC06848, 0xD0805C, 0xE09470, 0xECA880, 0xFCBC94,
        0x880000, 0x9C2020, 0xB03C3C, 0xC05858, 0xD07070, 0xE08888, 0xECA0A0, 0xFCB4B4,
        0x78005C, 0x8C2074, 0xA03C88, 0xB0589C, 0xC070B0, 0xD084C0, 0xDC9CD0, 0xECB0E0,
        0x480078, 0x602090, 0x783CA4, 0x8C58B8, 0xA070CC, 0xB484DC, 0xC49CEC, 0xD4B0FC,
        0x140084, 0x302098, 0x4C3CAC, 0x6858C0, 0x7C70D0, 0x9488E0, 0xA8A0EC, 0xBCB4FC,
        0x000088, 0x1C209C, 0x3840B0, 0x505CC0, 0x6874D0, 0x7C8CE0, 0x90A4EC, 0xA4B8FC,
        0x00187C, 0x1C3890, 0x3854A8, 0x5070BC, 0x6888CC, 0x7C9CDC, 0x90B4EC, 0xA4C8FC,
        0x002C5C, 0x1C4C78, 0x386890, 0x5084AC, 0x689CC0, 0x7CB4D4, 0x90CCE8, 0xA4E0FC,
        0x003C2C, 0x1C5C48, 0x387C64, 0x509C80, 0x68B494, 0x7CD0AC, 0x90E4C0, 0xA4FCD4,
        0x003C00, 0x205C20, 0x407C40, 0x5C9C5C, 0x74B474, 0x8CD08C, 0xA4E4A4, 0xB8FCB8,
        0x143800, 0x345C1C, 0x507C38, 0x6C9850, 0x84B468, 0x9CCC7C, 0xB4E490, 0xC8FCA4,
        0x2C3000, 0x4C501C, 0x687034, 0x848C4C, 0x9CA864, 0xB4C078, 0xCCD488, 0xE0EC9C,
        0x442800, 0x644818, 0x846830, 0xA08444, 0xB89C58, 0xD0B46C, 0xE8CC7C, 0xFCE08C,
    ];
    proof {
        assert(palette@ =~= ntsc_palette());
    }
    let (color, luminance) = color_luminance;
    let c: usize = match color {
        Color::White => 0,
        Color::Gold => 1,
        Color::Orange => 2,
        Color::BrightOrange => 3,
        Color::Pink => 4,
        Color::Purple => 5,
        Color::PurpleBlue => 6,
        Color::Blue => 7,
        Color::Blue2 => 8,
        Color::LightBlue => 9,
        Color::TorqueGreen => 10,
        Color::GreenBlue => 11,
        Color::Green => 12,
        Color::YellowGreen => 13,
        Color::OrangeGreen => 14,
        Color::LightOrange => 15,
    };
    let l: usize = match luminance {
        Luminance::Darkest => 0,
        Luminance::VeryDark => 1,
        Luminance::Dark => 2,
        Luminance::SlightlyDark => 3,
        Luminance::SlightlyBright => 4,
        Luminance::Bright => 5,
        Luminance::VeryBright => 6,
        Luminance::Brightest => 7,
    };
    let e = palette[c * 8 + l];
    ((e / 65536 % 256) as u8, (e / 256 % 256) as u8, (e % 256) as u8)
}

/// The RGB pixel of a color register value.
pub fn register_to_rgb(value: u8) -> (r: (u8, u8, u8))
    ensures
        r == register_rgb(value),
{
    to_rgb(color_and_luminance(value))
}

/// The color of the background (COLUBK).
pub fn background_color(bus: &Bus) -> (r: (u8, u8, u8))
    requires
        bus@.wf(),
    ensures
        r == register_rgb(bus@.reg(COLUBK)),
{
    register_to_rgb(bus.tia[COLUBK as usize])
}

/// The color of the playfield (COLUPF).
pub fn playfield_color(bus: &Bus) -> (r: (u8, u8, u8))
    requires
        bus@.wf(),
    ensures
        r == register_rgb(bus@.reg(COLUPF)),
{
    register_to_rgb(bus.tia[COLUPF as usize])
}

/// The color of player 0 (COLUP0).
pub fn player0_color(bus: &Bus) -> (r: (u8, u8, u8))
    requires
        bus@.wf(),
    ensures
        r == register_rgb(bus@.reg(COLUP0)),
{
    register_to_rgb(bus.tia[COLUP0 as usize])
}

/// The color of player 1 (COLUP1).
pub fn player1_color(bus: &Bus) -> (r: (u8, u8, u8))
    requires
        bus@.wf(),
    ensures
        r == register_rgb(bus@.reg(COLUP1)),
{
    register_to_rgb(bus.tia[COLUP1 as usize])
}

/// The color of missile 0, that of player 0 (COLUP0).
pub fn missile0_color(bus: &Bus) -> (r: (u8, u8, u8))
    requires
        bus@.wf(),
    ensures
        r == register_rgb(bus@.reg(COLUP0)),
{
    register_to_rgb(bus.tia[COLUP0 as usize])
}

/// The color of missile 1, that of player 1 (COLUP1).
pub fn missile1_color(bus: &Bus) -> (r: (u8, u8, u8))
    requires
        bus@.wf(),
    ensures
        r == register_rgb(bus@.reg(COLUP1)),
{
    register_to_rgb(bus.tia[COLUP1 as usize])
}

/// The color of the ball, that of the playfield (COLUPF).
pub fn ball_color(bus: &Bus) -> (r: (u8, u8, u8))
    requires
        bus@.wf(),
    ensures
        r == register_rgb(bus@.reg(COLUPF)),
{
    register_to_rgb(bus.tia[COLUPF as usize])
}

} // verus!
