use atari2600::cartridge::Cartridge;
use atari2600::console::{Console, Difficulty, Fault, Player, TvType, CYCLE_DURATION_NANOS};
use atari2600::lightgun::Lightgun;
use atari2600::steering::Steering;

const CYCLE: u64 = CYCLE_DURATION_NANOS;

#[test]
fn test_subroutine() {
    // A quick test to make sure subroutines work: JSR to 0x3142 (ROM offset
    // 0x142), INX there, RTS back, then INY.
    let mut rom = vec![0xEA; 4096];
    rom[0] = 0x20;
    rom[1] = 0x42;
    rom[2] = 0x31;
    rom[3] = 0xC8;
    rom[0x142] = 0xE8;
    rom[0x143] = 0x60;
    let mut console = Console::new(Cartridge::new(rom));
    console.pointer_counter = 0x1000;
    console.x_register = 0;
    console.y_register = 0;

    assert_eq!(console.execute_instruction(), Ok(6));
    assert_eq!(console.pointer_counter, 0x3142);
    assert_eq!(console.execute_instruction(), Ok(2));
    assert_eq!(console.x_register, 1);
    assert_eq!(console.execute_instruction(), Ok(6));
    assert_eq!(console.pointer_counter, 0x1003);
    assert_eq!(console.stack_pointer, 0xFF);
    assert_eq!(console.execute_instruction(), Ok(2));
    assert_eq!(console.y_register, 1);
}

#[test]
fn test_timer() {
    // Test timer-related functionalities (performed by the PIA).
    let cartridge = Cartridge::new(vec![
        0xA9, 0x05,       // Load accumulator with value 5
        0x8D, 0x95, 0x02, // Write to register TIM8T with the accumulator value
        // Do 2 times 8 'do nothing' cycles.
        0xEA, 0xEA, 0xEA, 0xEA, 0xEA, 0xEA, 0xEA, 0xEA,
        0xEA, 0xEA, 0xEA, 0xEA, 0xEA, 0xEA, 0xEA, 0xEA,
        // During this 8 cycles, read the INSTAT register (don't be confused with EA and AE)
        0xEA, 0xEA, 0xAE, 0x85, 0x02, 0xEA, 0xEA, 0xEA,
        // Do 2 times 8 'do nothing' cycles.
        0xEA, 0xEA, 0xEA, 0xEA, 0xEA, 0xEA, 0xEA, 0xEA,
        // Do 2 times 'do nothing' cycles to finish the testing.
        0xEA, 0xEA,
        0xEA, 0xEA, 0xEA, 0xEA, 0xEA, 0xEA, 0xEA, 0xEA,
        0xEA, 0xEA, 0xEA, 0xEA, 0xEA, 0xEA, 0xEA, 0xEA,
        0xEA, 0xEA, 0xEA, 0xEA, 0xEA, 0xEA, 0xEA, 0xEA,
        0xEA, 0xEA, 0xEA, 0xEA, 0xEA, 0xEA, 0xEA, 0xEA,
    ]);

    // Create the console and advance the simulation slightly forward to
    // avoid being on the cycle edges.
    let mut console = Console::new(cartridge);
    console.update_accurate(CYCLE / 10).unwrap();

    assert_eq!(console.bus.timer_value, 0);
    assert_eq!(console.bus.timer_status & 0b0100_0000 != 0, false);
    assert_eq!(console.bus.timer_status & 0b1000_0000 != 0, false);
    assert_eq!(console.bus.timer_interval, 1);

    // Advance the simulation by 2 cycles. At this time, the accumulator is
    // loaded with value 5.
    console.update_accurate(CYCLE * 2).unwrap();
    assert_eq!(console.accumulator, 5);

    // Advance the simulation by 4 cycles. At this time, the register TIM8T
    // has been written with the value of the accumulator (which is 5). The
    // register INTIM is updated and the register INSTAT 7th bit is reset.
    console.bus.timer_status |= 0b1000000;
    console.update_accurate(CYCLE * 4).unwrap();
    assert_eq!(console.bus.timer_value, 5);
    assert_eq!(console.bus.timer_status & 0b1000_0000 != 0, false);

    // The timer is immediately decremented after the first cycle.
    console.update_accurate(CYCLE).unwrap();
    assert_eq!(console.bus.timer_value, 4);

    // Then after that, it's taking 8 cycles for the next decrement.
    console.update_accurate(CYCLE * 8).unwrap();
    assert_eq!(console.bus.timer_value, 3);

    // A reload clears bit 7 of INSTAT only: bit 6, set above, is still set
    // until INSTAT is read.
    console.update_accurate(CYCLE * 2).unwrap();

    console.bus.timer_status |= 0b0100000;
    console.update_accurate(CYCLE * 3).unwrap();
    assert_eq!(console.bus.timer_status & 0b0100_0000 != 0, true);

    console.update_accurate(CYCLE * 3).unwrap();
    assert_eq!(console.bus.timer_value, 2);

    // Run another 2 times more 8 cycles for the timer value to finally
    // reach 0.
    console.update_accurate(CYCLE * 16).unwrap();
    assert_eq!(console.bus.timer_value, 0);

    console.update_accurate(CYCLE).unwrap();
    console.update_accurate(CYCLE).unwrap();
    console.update_accurate(CYCLE).unwrap();
    console.update_accurate(CYCLE).unwrap();
    console.update_accurate(CYCLE).unwrap();
    console.update_accurate(CYCLE).unwrap();

    // INTIM reached 0 at cycle 39 and holds it for a whole interval of 8
    // cycles; the instructions run so far end at cycle 46, and the next
    // update owes no further cycle.
    console.bus.timer_status &= 0b0011_1111; // reset 6th and 7th bit
    console.update_accurate(CYCLE).unwrap();
    assert_eq!(console.bus.timer_value, 0);
    assert_eq!(console.bus.timer_status & 0b1100_0000, 0);

    // The next NOP runs cycles 47 and 48: the timer underflows to 255 and
    // goes on in high speed decrement mode.
    console.update_accurate(CYCLE).unwrap();
    assert_eq!(console.bus.timer_value, 0xFE);
    assert_eq!(console.bus.timer_interval, 1);
    assert_eq!(console.bus.timer_status & 0b0100_0000 != 0, true);
    assert_eq!(console.bus.timer_status & 0b1000_0000 != 0, true);

    console.update_accurate(CYCLE).unwrap();
    assert_eq!(console.bus.timer_value, 0xFE);

    console.update_accurate(CYCLE).unwrap();
    assert_eq!(console.bus.timer_value, 0xFC);
}

/// Runs whole instructions until `cycles` processor cycles have passed.
fn run_cycles(console: &mut Console, cycles: u32) {
    let mut left = cycles;
    while left > 0 {
        let taken = console.execute_instruction().unwrap();
        for _ in 0..taken {
            console.execute_cycle();
        }
        console.bus.timer_block = false;
        left -= taken;
    }
}

fn timer_cartridge() -> Cartridge {
    let mut rom = vec![0xA9, 0x05, 0x8D, 0x95, 0x02];
    rom.extend(vec![0xEA; 30]);
    Cartridge::new(rom)
}

#[test]
fn timer_basic_scenario() {
    let mut console = Console::new(timer_cartridge());
    run_cycles(&mut console, 6);
    assert_eq!(console.peek(0x0284), 5);
    assert_eq!(console.bus.timer_interval, 8);
    assert_eq!(console.bus.timer_status & 0x80, 0);
    console.execute_cycle();
    assert_eq!(console.bus.timer_value, 4);
    for _ in 0..8 {
        console.execute_cycle();
    }
    assert_eq!(console.bus.timer_value, 3);
    for _ in 0..24 {
        console.execute_cycle();
    }
    assert_eq!(console.bus.timer_value, 0);
    for _ in 0..7 {
        console.execute_cycle();
    }
    assert_eq!(console.bus.timer_value, 0);
    console.execute_cycle();
    assert_eq!(console.bus.timer_value, 0xFF);
    assert_eq!(console.bus.timer_interval, 1);
    assert_eq!(console.bus.timer_status & 0xC0, 0xC0);
}

#[test]
fn instat_read_clears_bit_6() {
    let mut console = Console::new(timer_cartridge());
    run_cycles(&mut console, 6);
    for _ in 0..41 {
        console.execute_cycle();
    }
    assert_eq!(console.bus.timer_status & 0xC0, 0xC0);
    let first = console.read(0x0285);
    assert_eq!(first & 0x40, 0x40);
    assert_eq!(console.bus.timer_status & 0x40, 0);
    let second = console.read(0x0285);
    assert_eq!(second & 0x40, 0);
    assert_eq!(second & 0x80, 0x80);
}

#[test]
fn update_keeps_owed_cycles_below_ten() {
    let mut console = Console::new(Cartridge::new(vec![0xEA; 4096]));
    for step in 0..200u64 {
        assert_eq!(console.update(CYCLE * (step % 23) + step), Ok(()));
        assert!(console.remaining_cycles >= 0 && console.remaining_cycles < 10);
        assert!(console.bus.scanline < 262 && console.bus.scanline_cycle < 228);
        assert!(console.bus.timer_elapsed <= console.bus.timer_interval);
        assert!(console.elapsed_time < CYCLE);
    }
}

#[test]
fn update_owes_cycles_of_whole_durations() {
    let mut console = Console::new(Cartridge::new(vec![0xEA; 4096]));
    assert_eq!(console.update(CYCLE * 9 + 5), Ok(()));
    assert_eq!(console.remaining_cycles, 9);
    assert_eq!(console.elapsed_time, 5);
    assert_eq!(console.pointer_counter, 0xF000);
    assert_eq!(console.update(CYCLE), Ok(()));
    // Ten cycles owed: NOPs run until fewer than ten are left.
    assert_eq!(console.remaining_cycles, 8);
    assert_eq!(console.pointer_counter, 0xF001);
}

#[test]
fn update_runs_ahead_after_update_accurate() {
    let mut console = Console::new(Cartridge::new(vec![0x6D, 0x80, 0x00]));
    console.update_accurate(CYCLE).unwrap();
    assert_eq!(console.remaining_cycles, -3);
    assert_eq!(console.update(0), Err(Fault::AheadOfTime));
}

#[test]
fn stack_overflow_is_a_fault() {
    let mut console = Console::new(Cartridge::new(vec![0x48, 0x48]));
    console.stack_pointer = 0x80;
    assert_eq!(console.execute_instruction(), Ok(3));
    assert_eq!(console.stack_pointer, 0x7F);
    assert_eq!(console.execute_instruction(), Err(Fault::StackOverflow));
    assert_eq!(console.pointer_counter, 0xF001);
}

#[test]
fn stack_underflow_is_a_fault() {
    let mut console = Console::new(Cartridge::new(vec![0x68]));
    assert_eq!(console.stack_pointer, 0xFF);
    assert_eq!(console.execute_instruction(), Err(Fault::StackUnderflow));
}

#[test]
fn wsync_halts_until_the_next_line() {
    let mut console = Console::new(Cartridge::new(vec![0x85, 0x02, 0xEA]));
    assert_eq!(console.execute_instruction(), Ok(3));
    assert!(console.bus.halt);
    for _ in 0..75 {
        console.execute_cycle();
    }
    assert!(console.bus.halt);
    console.execute_cycle();
    assert!(!console.bus.halt);
    assert_eq!(console.bus.scanline, 1);
    assert_eq!(console.bus.scanline_cycle, 0);
}

#[test]
fn switches_map_to_swchb() {
    let mut console = Console::new(Cartridge::new(vec![]));
    console.release_reset_button();
    assert_eq!(console.peek(0x0282) & 0x01, 0x01);
    console.press_reset_button();
    assert_eq!(console.peek(0x0282) & 0x01, 0);
    console.release_select_button();
    assert_eq!(console.peek(0x0282) & 0x02, 0x02);
    console.press_select_button();
    assert_eq!(console.peek(0x0282) & 0x02, 0);
    console.set_tv_type_switch(TvType::Color);
    assert_eq!(console.tv_type_switch(), TvType::Color);
    assert_eq!(console.peek(0x0282) & 0x08, 0x08);
    console.set_tv_type_switch(TvType::Mono);
    assert_eq!(console.tv_type_switch(), TvType::Mono);
    console.set_difficulty_switch(Player::One, Difficulty::Pro);
    assert_eq!(console.peek(0x0282) & 0x40, 0x40);
    assert_eq!(console.difficulty_switch(Player::One), Difficulty::Pro);
    assert_eq!(console.difficulty_switch(Player::Two), Difficulty::Amateur);
    console.set_difficulty_switch(Player::Two, Difficulty::Pro);
    assert_eq!(console.peek(0x0282), 0xC0);
    console.set_difficulty_switch(Player::One, Difficulty::Amateur);
    assert_eq!(console.difficulty_switch(Player::One), Difficulty::Amateur);
    assert_eq!(console.peek(0x0282), 0x80);
}

#[test]
fn test_lightgun() {
    let mut console = Console::new(Cartridge::new(vec![]));
    let mut gun = Lightgun::new();
    console.plug_controller(Player::Two, &mut gun);
    assert_eq!(gun.slot, Some(Player::Two));
    assert_eq!(console.controllers, (false, true));
}

#[test]
fn steering_plugs_into_port_one() {
    let mut console = Console::new(Cartridge::new(vec![]));
    let mut wheel = Steering::new();
    console.plug_controller(Player::One, &mut wheel);
    assert_eq!(wheel.slot, Some(Player::One));
    assert_eq!(console.controllers, (true, false));
}

#[test]
fn bus_masks_high_address_bits() {
    let mut console = Console::new(Cartridge::new(vec![0x11, 0x22]));
    console.write(0xE080, 0x5A);
    assert_eq!(console.peek(0x0080), 0x5A);
    assert_eq!(console.peek(0x2080), 0x5A);
    assert_eq!(console.peek(0xF001), 0x22);
    assert_eq!(console.peek(0x1001), 0x22);
    // ROM and unmapped areas drop writes; unmapped areas read 0.
    console.write(0x1000, 0x99);
    assert_eq!(console.peek(0x1000), 0x11);
    console.write(0x0042, 0x99);
    assert_eq!(console.peek(0x0042), 0);
}

#[test]
fn collision_latches_are_read_only_and_cleared_by_cxclr() {
    let mut console = Console::new(Cartridge::new(vec![]));
    console.bus.tia[0x30] = 0xC0;
    console.write(0x30, 0x00);
    assert_eq!(console.peek(0x30), 0xC0);
    console.write(0x2C, 0);
    assert_eq!(console.peek(0x30), 0);
}

#[test]
fn hmove_moves_objects_by_signed_nibbles() {
    let mut console = Console::new(Cartridge::new(vec![]));
    console.bus.player0 = 10;
    console.bus.ball = 2;
    console.write(0x20, 0x30); // HMP0 +3
    console.write(0x24, 0xF0); // HMBL -1
    console.write(0x2A, 0); // HMOVE
    assert_eq!(console.bus.player0, 13);
    assert_eq!(console.bus.ball, 1);
    console.write(0x24, 0x80); // HMBL -8
    console.write(0x2A, 0);
    assert_eq!(console.bus.ball, 153);
    console.write(0x2B, 0); // HMCLR
    assert_eq!(console.peek(0x20), 0);
    assert_eq!(console.peek(0x24), 0);
}

#[test]
fn reset_strobes_use_the_beam_column() {
    let mut console = Console::new(Cartridge::new(vec![]));
    console.write(0x10, 0); // RESP0 during horizontal blank
    console.write(0x12, 0); // RESM0 during horizontal blank
    assert_eq!(console.bus.player0, 3);
    assert_eq!(console.bus.missile0, 2);
    console.bus.scanline_cycle = 100;
    console.write(0x14, 0); // RESBL
    assert_eq!(console.bus.ball, 32);
}
