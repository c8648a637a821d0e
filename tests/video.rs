use atari2600::cartridge::Cartridge;
use atari2600::color::{color_and_luminance, to_rgb, Color, Luminance};
use atari2600::console::{Console, Player};
use atari2600::missile::{is_ball_enabled, is_missile_enabled};
use atari2600::playfield::{playfield_bits, playfield_mirror_mode, playfield_priority, playfield_score_mode};
use atari2600::sprite::{is_player_mirrored, player_bits};
use atari2600::utils::byte_to_boolean_array;
use atari2600::video::create_scanline;

#[test]
fn test_byte_to_boolean_array() {
    assert_eq!(
        byte_to_boolean_array(0b01010101),
        [true, false, true, false, true, false, true, false]
    );
    assert_eq!(
        byte_to_boolean_array(0b10101010),
        [false, true, false, true, false, true, false, true]
    );
    assert_eq!(
        byte_to_boolean_array(0b00001111),
        [true, true, true, true, false, false, false, false]
    );
    assert_eq!(
        byte_to_boolean_array(0b11110000),
        [false, false, false, false, true, true, true, true]
    );
}

#[test]
fn test_color_and_luminance() {
    assert_eq!(color_and_luminance(0b01010101), (Color::Purple, Luminance::Dark));
    assert_eq!(color_and_luminance(0b10101010), (Color::TorqueGreen, Luminance::Bright));
    assert_eq!(color_and_luminance(0b00001111), (Color::White, Luminance::Brightest));
    assert_eq!(color_and_luminance(0b11110000), (Color::LightOrange, Luminance::Darkest));
}

#[test]
fn test_color_to_rgb() {
    assert_eq!(to_rgb((Color::White, Luminance::Darkest)), (0x00, 0x00, 0x00));
    assert_eq!(to_rgb((Color::White, Luminance::Brightest)), (0xEC, 0xEC, 0xEC));
    assert_eq!(to_rgb((Color::Gold, Luminance::Dark)), (0x84, 0x84, 0x24));
    assert_eq!(to_rgb((Color::Blue2, Luminance::Darkest)), (0x00, 0x00, 0x88));
    assert_eq!(to_rgb((Color::LightBlue, Luminance::Darkest)), (0x00, 0x18, 0x7C));
    assert_ne!(to_rgb((Color::LightBlue, Luminance::Bright)), to_rgb((Color::Blue2, Luminance::Bright)));
    assert_eq!(to_rgb((Color::LightOrange, Luminance::Brightest)), (0xFC, 0xE0, 0x8C));
}

#[test]
fn test_audio() {
    // Audio registers are plain bytes on the bus.
    let mut console = Console::new(Cartridge::new(vec![]));
    console.write(0x15, 0x0F);
    console.write(0x19, 0x08);
    assert_eq!(console.peek(0x15), 0x0F);
    assert_eq!(console.peek(0x19), 0x08);
}

#[test]
fn test_ball() {
    let mut console = Console::new(Cartridge::new(vec![]));
    assert!(!is_ball_enabled(&console.bus));
    console.write(0x1F, 0x02);
    assert!(is_ball_enabled(&console.bus));
}

#[test]
fn test_is_missile_enabled() {
    let mut console = Console::new(Cartridge::new(vec![]));
    console.write(0x1E, 0x02);
    assert!(!is_missile_enabled(&console.bus, Player::One));
    assert!(is_missile_enabled(&console.bus, Player::Two));
}

#[test]
fn test_player() {
    let mut console = Console::new(Cartridge::new(vec![]));
    console.write(0x1B, 0b1000_0001);
    console.write(0x0C, 0x08);
    assert_eq!(player_bits(&console.bus, Player::One), [true, false, false, false, false, false, false, true]);
    assert!(!is_player_mirrored(&console.bus, Player::One));
    assert!(is_player_mirrored(&console.bus, Player::Two));
}

#[test]
fn test_playfield() {
    let mut console = Console::new(Cartridge::new(vec![]));
    console.write(0x0D, 0x10);
    console.write(0x0E, 0x80);
    console.write(0x0F, 0x01);
    console.write(0x0A, 0x07);
    let bits = playfield_bits(&console.bus);
    let mut expected = [false; 20];
    expected[0] = true;
    expected[4] = true;
    expected[12] = true;
    assert_eq!(bits, expected);
    assert!(playfield_mirror_mode(&console.bus));
    assert!(playfield_score_mode(&console.bus));
    assert!(playfield_priority(&console.bus));
}

fn rgb(value: u8) -> (u8, u8, u8) {
    to_rgb(color_and_luminance(value))
}

#[test]
fn test_video() {
    // Background 0x80, playfield 0x1E, PF0 = 0xF0, no score nor mirror mode.
    let mut console = Console::new(Cartridge::new(vec![]));
    console.write(0x09, 0x80);
    console.write(0x08, 0x1E);
    console.write(0x0D, 0xF0);
    console.write(0x0E, 0x00);
    console.write(0x0F, 0x00);
    console.write(0x0A, 0x00);
    let line = create_scanline(&console.bus);
    assert_eq!(line.len(), 160);
    for x in 0..160 {
        let expected = if x < 16 || (80 <= x && x < 96) { rgb(0x1E) } else { rgb(0x80) };
        assert_eq!(line[x], expected);
    }
    assert_eq!(rgb(0x80), (0x00, 0x00, 0x88));
}

#[test]
fn scanline_reaches_the_framebuffer() {
    let mut console = Console::new(Cartridge::new(vec![]));
    console.write(0x09, 0x80);
    console.write(0x08, 0x1E);
    console.write(0x0D, 0xF0);
    console.bus.scanline = 39;
    console.bus.scanline_cycle = 227;
    console.execute_color_cycle();
    assert_eq!(console.bus.scanline, 40);
    assert_eq!(console.framebuffer[0][0], rgb(0x1E));
    assert_eq!(console.framebuffer[0][16], rgb(0x80));
    assert_eq!(console.framebuffer[0][80], rgb(0x1E));
    assert_eq!(console.framebuffer[0][96], rgb(0x80));
    let picture = console.framebuffer();
    assert_eq!(picture.len(), 192);
    assert_eq!(picture[0][15], rgb(0x1E));
    assert_eq!(picture[1][0], (0, 0, 0));
}

#[test]
fn mirrored_and_scored_playfield() {
    let mut console = Console::new(Cartridge::new(vec![]));
    console.write(0x06, 0x40);
    console.write(0x07, 0x60);
    console.write(0x0D, 0x10);
    console.write(0x0A, 0x03);
    let line = create_scanline(&console.bus);
    assert_eq!(line[0], rgb(0x40));
    assert_eq!(line[4], rgb(0x00));
    assert_eq!(line[159], rgb(0x60));
    assert_eq!(line[155], rgb(0x00));
}

#[test]
fn players_missiles_and_ball_are_drawn() {
    let mut console = Console::new(Cartridge::new(vec![]));
    console.write(0x06, 0x40); // COLUP0
    console.write(0x07, 0x60); // COLUP1
    console.write(0x08, 0x1E); // COLUPF
    console.write(0x1B, 0b1000_0000); // GRP0: leftmost pixel only
    console.write(0x1C, 0b0000_0001); // GRP1: rightmost pixel only
    console.write(0x05, 0x01); // NUSIZ1: two close copies
    console.bus.player0 = 10;
    console.bus.player1 = 20;
    console.bus.missile0 = 50;
    console.write(0x04, 0x20); // NUSIZ0: missile 4 wide
    console.write(0x1D, 0x02); // ENAM0
    console.bus.ball = 70;
    console.write(0x0A, 0x10); // ball 2 wide
    console.write(0x1F, 0x02); // ENABL
    let line = create_scanline(&console.bus);
    assert_eq!(line[10], rgb(0x40));
    assert_eq!(line[11], rgb(0x00));
    assert_eq!(line[27], rgb(0x60));
    assert_eq!(line[43], rgb(0x60));
    assert_eq!(line[26], rgb(0x00));
    assert_eq!(line[50], rgb(0x40));
    assert_eq!(line[53], rgb(0x40));
    assert_eq!(line[54], rgb(0x00));
    assert_eq!(line[70], rgb(0x1E));
    assert_eq!(line[71], rgb(0x1E));
    assert_eq!(line[72], rgb(0x00));
}

#[test]
fn collisions_are_latched_with_the_line() {
    let mut console = Console::new(Cartridge::new(vec![]));
    console.write(0x1B, 0xFF); // GRP0
    console.write(0x1C, 0xFF); // GRP1
    console.bus.player0 = 10;
    console.bus.player1 = 14;
    console.write(0x0D, 0x10); // PF0: columns 0 to 3 and 80 to 83
    console.bus.scanline = 39;
    console.bus.scanline_cycle = 227;
    console.execute_color_cycle();
    assert_eq!(console.peek(0x37) & 0x80, 0x80); // player 0/player 1
    assert_eq!(console.peek(0x32) & 0x80, 0); // player 0/playfield
    console.bus.player1 = 0;
    console.bus.scanline_cycle = 227;
    console.execute_color_cycle();
    assert_eq!(console.peek(0x33) & 0x80, 0x80); // player 1/playfield
    assert_eq!(console.peek(0x37) & 0x80, 0x80); // still latched
}
