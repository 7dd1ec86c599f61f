//! Named colours for text.
//!
//! A colour is four components (red, green, blue, alpha), each a number between
//! zero and one in single precision. A component is kept as the bit pattern of that
//! number, so that colours stay exact, can be compared, and cross threads by value.

use vstd::prelude::*;

verus! {

/// Four colour components in the order red, green, blue, alpha, each the bit
/// pattern of a single-precision number.
pub type Color = [u32; 4];

/// Bit pattern of `0.0`.
pub const ZERO: u32 = 0x0000_0000;

/// Bit pattern of `0.5`.
pub const HALF: u32 = 0x3F00_0000;

/// Bit pattern of `1.0`.
pub const ONE: u32 = 0x3F80_0000;

pub const RED: Color = [ONE, ZERO, ZERO, ONE];

pub const GREEN: Color = [ZERO, ONE, ZERO, ONE];

pub const BLUE: Color = [ZERO, ZERO, ONE, ONE];

pub const YELLOW: Color = [ONE, ONE, ZERO, ONE];

pub const VIOLET: Color = [ONE, ZERO, ONE, ONE];

pub const CYAN: Color = [ZERO, ONE, ONE, ONE];

pub const DARK_RED: Color = [HALF, ZERO, ZERO, ONE];

pub const DARK_GREEN: Color = [ZERO, HALF, ZERO, ONE];

pub const DARK_BLUE: Color = [ZERO, ZERO, HALF, ONE];

pub const DARK_YELLOW: Color = [HALF, HALF, ZERO, ONE];

pub const DARK_VIOLET: Color = [HALF, ZERO, HALF, ONE];

pub const DARK_CYAN: Color = [ZERO, HALF, HALF, ONE];

pub const BLACK: Color = [ZERO, ZERO, ZERO, ONE];

pub const WHITE: Color = [ONE, ONE, ONE, ONE];

} // verus!
