//! Byte values of the ASCII characters that the ICAP grammar names.
use vstd::prelude::*;

verus! {

pub const HT: u8 = 0x09;
pub const LF: u8 = 0x0A;
pub const CR: u8 = 0x0D;
pub const SP: u8 = 0x20;
pub const DQUOTE: u8 = 0x22;
pub const PLUS: u8 = 0x2B;
pub const COMMA: u8 = 0x2C;
pub const HYPHEN: u8 = 0x2D;
pub const SEMICOLON: u8 = 0x3B;
pub const EQUALS: u8 = 0x3D;
pub const BACKSLASH: u8 = 0x5C;
pub const DIGIT_0: u8 = 0x30;
pub const DIGIT_9: u8 = 0x39;
pub const UPPER_A: u8 = 0x41;
pub const UPPER_F: u8 = 0x46;
pub const UPPER_Z: u8 = 0x5A;
pub const LOWER_A: u8 = 0x61;
pub const LOWER_F: u8 = 0x66;
pub const LOWER_Z: u8 = 0x7A;

} // verus!
