//! The register map of the device and the bit masks of its first control
//! register.

use vstd::prelude::*;

verus! {

/// What the identification register of a genuine device holds.
pub const EXPECTED_DEVICE_ID: u8 = 0x3B;

/// Address of the identification register.
pub const WHO_AM_I_REGISTER: u8 = 0x0F;

/// Address of the X output register.
pub const X_OUTPUT_REGISTER: u8 = 0x29;

/// Address of the Y output register.
pub const Y_OUTPUT_REGISTER: u8 = 0x2B;

/// Address of the Z output register.
pub const Z_OUTPUT_REGISTER: u8 = 0x2D;

/// Address of the first control register.
pub const CONTROL_REGISTER_1: u8 = 0x20;

/// Control register 1, bit 7 clear: 100 Hz output data rate.
pub const DATA_RATE_100_HZ: u8 = 0x00;

/// Control register 1, bit 7 set: 400 Hz output data rate.
pub const DATA_RATE_400_HZ: u8 = 0x80;

/// Control register 1, bit 6 clear: power-down mode.
pub const POWER_DOWN_MODE: u8 = 0x00;

/// Control register 1, bit 6 set: active mode.
pub const ACTIVE_MODE: u8 = 0x40;

/// Control register 1, bit 5 clear: full scale of plus or minus 2 g.
pub const SCALE_PLUS_MINUS_2G: u8 = 0x00;

/// Control register 1, bit 5 set: full scale of plus or minus 8 g.
pub const SCALE_PLUS_MINUS_8G: u8 = 0x20;

/// Control register 1, bit 2: Z axis enabled.
pub const Z_ENABLE: u8 = 0x04;

/// Control register 1, bit 1: Y axis enabled.
pub const Y_ENABLE: u8 = 0x02;

/// Control register 1, bit 0: X axis enabled.
pub const X_ENABLE: u8 = 0x01;

/// Set in the address byte of a frame that reads a register.
pub const READ_FLAG: u8 = 0x80;

/// The byte sent after the address in a frame that reads a register. A read
/// whose exchange hands no bytes back yields this byte.
pub const PLACEHOLDER: u8 = 0x00;

} // verus!
