//! Opcodes of the VM operations.
//!
//! Opcodes 0..64 have degree-7 flags, 64..80 degree-6, 80..96 degree-5, 96..128 degree-4.

use vstd::prelude::*;

verus! {

pub const NOOP: u8 = 0;
pub const EQZ: u8 = 1;
pub const NEG: u8 = 2;
pub const INV: u8 = 3;
pub const INCR: u8 = 4;
pub const NOT: u8 = 5;
pub const MLOAD: u8 = 7;
pub const SWAP: u8 = 8;
pub const CALLER: u8 = 9;
pub const MOVUP2: u8 = 10;
pub const MOVDN2: u8 = 11;
pub const MOVUP3: u8 = 12;
pub const MOVDN3: u8 = 13;
pub const ADVPOPW: u8 = 14;
pub const EXPACC: u8 = 15;
pub const MOVUP4: u8 = 16;
pub const MOVDN4: u8 = 17;
pub const MOVUP5: u8 = 18;
pub const MOVDN5: u8 = 19;
pub const MOVUP6: u8 = 20;
pub const MOVDN6: u8 = 21;
pub const MOVUP7: u8 = 22;
pub const MOVDN7: u8 = 23;
pub const SWAPW: u8 = 24;
pub const EXT2MUL: u8 = 25;
pub const MOVUP8: u8 = 26;
pub const MOVDN8: u8 = 27;
pub const SWAPW2: u8 = 28;
pub const SWAPW3: u8 = 29;
pub const SWAPDW: u8 = 30;
pub const EMIT: u8 = 31;
pub const ASSERT: u8 = 32;
pub const EQ: u8 = 33;
pub const ADD: u8 = 34;
pub const MUL: u8 = 35;
pub const AND: u8 = 36;
pub const OR: u8 = 37;
pub const U32AND: u8 = 38;
pub const U32XOR: u8 = 39;
pub const FRIE2F4: u8 = 40;
pub const DROP: u8 = 41;
pub const CSWAP: u8 = 42;
pub const CSWAPW: u8 = 43;
pub const MLOADW: u8 = 44;
pub const MSTORE: u8 = 45;
pub const MSTOREW: u8 = 46;
pub const PAD: u8 = 48;
pub const DUP0: u8 = 49;
pub const DUP1: u8 = 50;
pub const DUP2: u8 = 51;
pub const DUP3: u8 = 52;
pub const DUP4: u8 = 53;
pub const DUP5: u8 = 54;
pub const DUP6: u8 = 55;
pub const DUP7: u8 = 56;
pub const DUP9: u8 = 57;
pub const DUP11: u8 = 58;
pub const DUP13: u8 = 59;
pub const DUP15: u8 = 60;
pub const ADVPOP: u8 = 61;
pub const SDEPTH: u8 = 62;
pub const CLK: u8 = 63;
pub const U32ADD: u8 = 64;
pub const U32SUB: u8 = 66;
pub const U32MUL: u8 = 68;
pub const U32DIV: u8 = 70;
pub const U32SPLIT: u8 = 72;
pub const U32ASSERT2: u8 = 74;
pub const U32ADD3: u8 = 76;
pub const U32MADD: u8 = 78;
pub const HPERM: u8 = 80;
pub const MPVERIFY: u8 = 81;
pub const PIPE: u8 = 82;
pub const MSTREAM: u8 = 83;
pub const SPLIT: u8 = 84;
pub const LOOP: u8 = 85;
pub const SPAN: u8 = 86;
pub const JOIN: u8 = 87;
pub const DYN: u8 = 88;
pub const HORNERBASE: u8 = 89;
pub const HORNEREXT: u8 = 90;
pub const PUSH: u8 = 91;
pub const DYNCALL: u8 = 92;
pub const EVALCIRCUIT: u8 = 93;
pub const LOGPRECOMPILE: u8 = 94;
pub const MRUPDATE: u8 = 96;
pub const CRYPTOSTREAM: u8 = 100;
pub const SYSCALL: u8 = 104;
pub const CALL: u8 = 108;
pub const END: u8 = 112;
pub const REPEAT: u8 = 116;
pub const RESPAN: u8 = 120;
pub const HALT: u8 = 124;

} // verus!
