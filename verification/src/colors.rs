//! Named colours as 24-bit codes `0xRRGGBB`, decoded by `Pixel::from_hex`.

use vstd::prelude::*;

verus! {

pub const BLACK: u32 = 0x000000;
pub const RED: u32 = 0xFF0000;
pub const ORANGE_RED: u32 = 0xFF4500;
pub const TOMATO: u32 = 0xFF6347;
pub const DARK_ORANGE: u32 = 0xFF8C00;
pub const ORANGE: u32 = 0xFFA500;
pub const GOLD: u32 = 0xFFD700;
pub const YELLOW: u32 = 0xFFFF00;
pub const CHARTREUSE: u32 = 0x7FFF00;
pub const LIME: u32 = 0x00FF00;
pub const GREEN: u32 = 0x008000;
pub const TEAL: u32 = 0x008080;
pub const DARK_TURQUOISE: u32 = 0x00CED1;
pub const CYAN: u32 = 0x00FFFF;
pub const DEEP_SKY_BLUE: u32 = 0x00BFFF;
pub const MEDIUM_BLUE: u32 = 0x0000CD;
pub const BLUE: u32 = 0x0000FF;
pub const INDIGO: u32 = 0x4B0082;
pub const DARK_VIOLET: u32 = 0x9400D3;
pub const DARK_MAGENTA: u32 = 0x8B008B;
pub const MEDIUM_VIOLET_RED: u32 = 0xC71585;
pub const FUCHSIA: u32 = 0xFF00FF;
pub const DEEP_PINK: u32 = 0xFF1493;
pub const HOT_PINK: u32 = 0xFF69B4;
pub const CRIMSON: u32 = 0xDC143C;

} // verus!
