//! Names of the memory-mapped registers of the TIA and the PIA.
use vstd::prelude::*;

verus! {

/// ......1. vertical sync set-clear
pub const VSYNC: u16 = 0x0000;
/// 11....1. vertical blank set-clear
pub const VBLANK: u16 = 0x0001;
/// <strobe> wait for leading edge of horizontal blank
pub const WSYNC: u16 = 0x0002;
/// <strobe> reset horizontal sync counter
pub const RSYNC: u16 = 0x0003;
/// ..111111 number-size player-missile 0
pub const NUSIZ0: u16 = 0x0004;
/// ..111111 number-size player-missile 1
pub const NUSIZ1: u16 = 0x0005;
/// 1111111. color-lum player 0 and missile 0
pub const COLUP0: u16 = 0x0006;
/// 1111111. color-lum player 1 and missile 1
pub const COLUP1: u16 = 0x0007;
/// 1111111. color-lum playfield and ball
pub const COLUPF: u16 = 0x0008;
/// 1111111. color-lum background
pub const COLUBK: u16 = 0x0009;
/// ..11.111 control playfield ball size & collisions
pub const CTRLPF: u16 = 0x000A;
/// ....1... reflect player 0
pub const REFP0: u16 = 0x000B;
/// ....1... reflect player 1
pub const REFP1: u16 = 0x000C;
/// 1111.... playfield register byte 0
pub const PF0: u16 = 0x000D;
/// 11111111 playfield register byte 1
pub const PF1: u16 = 0x000E;
/// 11111111 playfield register byte 2
pub const PF2: u16 = 0x000F;
/// <strobe> reset player 0
pub const RESP0: u16 = 0x0010;
/// <strobe> reset player 1
pub const RESP1: u16 = 0x0011;
/// <strobe> reset missile 0
pub const RESM0: u16 = 0x0012;
/// <strobe> reset missile 1
pub const RESM1: u16 = 0x0013;
/// <strobe> reset ball
pub const RESBL: u16 = 0x0014;
/// ....1111 audio control 0
pub const AUDC0: u16 = 0x0015;
/// ....1111 audio control 1
pub const AUDC1: u16 = 0x0016;
/// ...11111 audio frequency 0
pub const AUDF0: u16 = 0x0017;
/// ...11111 audio frequency 1
pub const AUDF1: u16 = 0x0018;
/// ....1111 audio volume 0
pub const AUDV0: u16 = 0x0019;
/// ....1111 audio volume 1
pub const AUDV1: u16 = 0x001A;
/// 11111111 graphics player 0
pub const GRP0: u16 = 0x001B;
/// 11111111 graphics player 1
pub const GRP1: u16 = 0x001C;
/// ......1. graphics (enable) missile 0
pub const ENAM0: u16 = 0x001D;
/// ......1. graphics (enable) missile 1
pub const ENAM1: u16 = 0x001E;
/// ......1. graphics (enable) ball
pub const ENABL: u16 = 0x001F;
/// 1111.... horizontal motion player 0
pub const HMP0: u16 = 0x0020;
/// 1111.... horizontal motion player 1
pub const HMP1: u16 = 0x0021;
/// 1111.... horizontal motion missile 0
pub const HMM0: u16 = 0x0022;
/// 1111.... horizontal motion missile 1
pub const HMM1: u16 = 0x0023;
/// 1111.... horizontal motion ball
pub const HMBL: u16 = 0x0024;
/// .......1 vertical delay player 0
pub const VDELP0: u16 = 0x0025;
/// .......1 vertical delay player 1
pub const VDELP1: u16 = 0x0026;
/// .......1 vertical delay ball
pub const VDELBL: u16 = 0x0027;
/// ......1. reset missile 0 to player 0
pub const RESMP0: u16 = 0x0028;
/// ......1. reset missile 1 to player 1
pub const RESMP1: u16 = 0x0029;
/// <strobe> apply horizontal motion
pub const HMOVE: u16 = 0x002A;
/// <strobe> clear horizontal motion registers
pub const HMCLR: u16 = 0x002B;
/// <strobe> clear collision latches
pub const CXCLR: u16 = 0x002C;
/// 11...... read collision missile 0/player 1, missile 0/player 0 (Bit 7,6)
pub const CXM0P: u16 = 0x0030;
/// 11...... read collision missile 1/player 0, missile 1/player 1
pub const CXM1P: u16 = 0x0031;
/// 11...... read collision player 0/playfield, player 0/ball
pub const CXP0FB: u16 = 0x0032;
/// 11...... read collision player 1/playfield, player 1/ball
pub const CXP1FB: u16 = 0x0033;
/// 11...... read collision missile 0/playfield, missile 0/ball
pub const CXM0FB: u16 = 0x0034;
/// 11...... read collision missile 1/playfield, missile 1/ball
pub const CXM1FB: u16 = 0x0035;
/// 1....... read collision ball/playfield, unused
pub const CXBLPF: u16 = 0x0036;
/// 11...... read collision player 0/player 1, missile 0/missile 1
pub const CXPPMM: u16 = 0x0037;
/// 1....... read pot port
pub const INPT0: u16 = 0x0038;
/// 1....... read pot port
pub const INPT1: u16 = 0x0039;
/// 1....... read pot port
pub const INPT2: u16 = 0x003A;
/// 1....... read pot port
pub const INPT3: u16 = 0x003B;
/// 1....... read input
pub const INPT4: u16 = 0x003C;
/// 1....... read input
pub const INPT5: u16 = 0x003D;
/// 11111111 Port A; input or output (read or write)
pub const SWCHA: u16 = 0x0280;
/// 11111111 Port A DDR, 0= input, 1=output
pub const SWACNT: u16 = 0x0281;
/// 11111111 Port B; console switches (read only)
pub const SWCHB: u16 = 0x0282;
/// 11111111 Port B DDR (hardwired as input)
pub const SWBCNT: u16 = 0x0283;
/// 11111111 Timer output (read only)
pub const INTIM: u16 = 0x0284;
/// 11...... Timer Status (read only, undocumented)
pub const INSTAT: u16 = 0x0285;
/// 11111111 set 1 clock interval (838 nsec/interval)
pub const TIM1T: u16 = 0x0294;
/// 11111111 set 8 clock interval (6.7 usec/interval)
pub const TIM8T: u16 = 0x0295;
/// 11111111 set 64 clock interval (53.6 usec/interval)
pub const TIM64T: u16 = 0x0296;
/// 11111111 set 1024 clock interval (858.2 usec/interval)
pub const T1024T: u16 = 0x0297;

} // verus!
