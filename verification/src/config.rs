//! The configuration of the device and the control byte that carries it.

use crate::registers::{
    ACTIVE_MODE, DATA_RATE_100_HZ, DATA_RATE_400_HZ, POWER_DOWN_MODE, SCALE_PLUS_MINUS_2G,
    SCALE_PLUS_MINUS_8G, X_ENABLE, Y_ENABLE, Z_ENABLE,
};
use vstd::prelude::*;

verus! {

/// Whether the device measures or sleeps.
#[derive(Clone, Copy, Debug, PartialEq, Eq, Structural)]
pub enum PowerMode {
    Active,
    PowerDown,
}

/// The full-scale range of the measurement.
#[derive(Clone, Copy, Debug, PartialEq, Eq, Structural)]
pub enum Scale {
    PlusMinus2G,
    PlusMinus8G,
}

/// How often the device produces a sample.
#[derive(Clone, Copy, Debug, PartialEq, Eq, Structural)]
pub enum DataRate {
    Rate100Hz,
    Rate400Hz,
}

/// The configuration that is written to the device when it is brought up.
#[derive(Clone, Copy, Debug, PartialEq, Eq, Structural)]
pub struct Config {
    pub power_mode: PowerMode,
    pub scale: Scale,
    pub data_rate: DataRate,
}

impl PowerMode {
    /// The bits of control register 1 that select this power mode.
    pub open spec fn bit_pattern(self) -> u8 {
        match self {
            PowerMode::Active => ACTIVE_MODE,
            PowerMode::PowerDown => POWER_DOWN_MODE,
        }
    }

    /// The bits of control register 1 that select this power mode.
    pub fn bits(self) -> (bits: u8)
        ensures
            bits == self.bit_pattern(),
    {
        match self {
            PowerMode::Active => ACTIVE_MODE,
            PowerMode::PowerDown => POWER_DOWN_MODE,
        }
    }
}

impl Scale {
    /// The bits of control register 1 that select this range.
    pub open spec fn bit_pattern(self) -> u8 {
        match self {
            Scale::PlusMinus2G => SCALE_PLUS_MINUS_2G,
            Scale::PlusMinus8G => SCALE_PLUS_MINUS_8G,
        }
    }

    /// The bits of control register 1 that select this range.
    pub fn bits(self) -> (bits: u8)
        ensures
            bits == self.bit_pattern(),
    {
        match self {
            Scale::PlusMinus2G => SCALE_PLUS_MINUS_2G,
            Scale::PlusMinus8G => SCALE_PLUS_MINUS_8G,
        }
    }
}

impl DataRate {
    /// The bits of control register 1 that select this data rate.
    pub open spec fn bit_pattern(self) -> u8 {
        match self {
            DataRate::Rate100Hz => DATA_RATE_100_HZ,
            DataRate::Rate400Hz => DATA_RATE_400_HZ,
        }
    }

    /// The bits of control register 1 that select this data rate.
    pub fn bits(self) -> (bits: u8)
        ensures
            bits == self.bit_pattern(),
    {
        match self {
            DataRate::Rate100Hz => DATA_RATE_100_HZ,
            DataRate::Rate400Hz => DATA_RATE_400_HZ,
        }
    }

    /// The number of samples per second at this data rate.
    pub open spec fn samples_per_second(self) -> int {
        match self {
            DataRate::Rate100Hz => 100,
            DataRate::Rate400Hz => 400,
        }
    }

    /// The number of samples per second at this data rate.
    pub fn hertz(self) -> (hertz: u16)
        ensures
            hertz == self.samples_per_second(),
    {
        match self {
            DataRate::Rate100Hz => 100,
            DataRate::Rate400Hz => 400,
        }
    }
}

/// The three axis-enable bits of control register 1 together.
pub open spec fn axis_enable_bits() -> u8 {
    X_ENABLE | Y_ENABLE | Z_ENABLE
}

impl Config {
    /// What control register 1 holds under this configuration: the three
    /// axis-enable bits and the bit pattern of each field.
    pub open spec fn control_bits(self) -> u8 {
        X_ENABLE | Y_ENABLE | Z_ENABLE | self.power_mode.bit_pattern() | self.scale.bit_pattern()
            | self.data_rate.bit_pattern()
    }

    /// Assembles the byte that is written to control register 1. All three
    /// axes are enabled whatever the configuration.
    pub fn control_byte(&self) -> (byte: u8)
        ensures
            byte == self.control_bits(),
            byte & axis_enable_bits() == axis_enable_bits(),
    {
        let mut control_byte: u8 = X_ENABLE | Y_ENABLE | Z_ENABLE;
        control_byte |= self.power_mode.bits();
        control_byte |= self.scale.bits();
        control_byte |= self.data_rate.bits();
        proof {
            lemma_control_fields(*self);
        }
        control_byte
    }
}

/// Each field of control register 1 holds the pattern of its own
/// configuration field and nothing of the others: bit 7 the data rate, bit 6
/// the power mode, bit 5 the range, bits 2 to 0 the axis enables, which are
/// always set; bits 4 and 3 are clear.
pub proof fn lemma_control_fields(config: Config)
    ensures
        config.control_bits() & DATA_RATE_400_HZ == config.data_rate.bit_pattern(),
        config.control_bits() & ACTIVE_MODE == config.power_mode.bit_pattern(),
        config.control_bits() & SCALE_PLUS_MINUS_8G == config.scale.bit_pattern(),
        config.control_bits() & axis_enable_bits() == axis_enable_bits(),
        config.control_bits() & 0x18 == 0,
{
    let power = config.power_mode.bit_pattern();
    let scale = config.scale.bit_pattern();
    let rate = config.data_rate.bit_pattern();
    assert(power == 0x40u8 || power == 0x00u8);
    assert(scale == 0x20u8 || scale == 0x00u8);
    assert(rate == 0x80u8 || rate == 0x00u8);
    let byte = 0x01u8 | 0x02u8 | 0x04u8 | power | scale | rate;
    assert(byte & 0x80u8 == rate && byte & 0x40u8 == power && byte & 0x20u8 == scale && byte & (
    0x01u8 | 0x02u8 | 0x04u8) == (0x01u8 | 0x02u8 | 0x04u8) && byte & 0x18u8 == 0u8)
        by (bit_vector)
        requires
            byte == 0x01u8 | 0x02u8 | 0x04u8 | power | scale | rate,
            power == 0x40u8 || power == 0x00u8,
            scale == 0x20u8 || scale == 0x00u8,
            rate == 0x80u8 || rate == 0x00u8,
    ;
}

/// Two configurations that give the same control byte are the same
/// configuration.
pub proof fn lemma_control_bits_tell_config(first: Config, second: Config)
    requires
        first.control_bits() == second.control_bits(),
    ensures
        first == second,
{
    lemma_control_fields(first);
    lemma_control_fields(second);
}

impl Default for Config {
    /// The device active, at plus or minus 2 g and 400 Hz.
    fn default() -> (config: Self)
        ensures
            config == (Config {
                power_mode: PowerMode::Active,
                scale: Scale::PlusMinus2G,
                data_rate: DataRate::Rate400Hz,
            }),
    {
        Config {
            power_mode: PowerMode::Active,
            scale: Scale::PlusMinus2G,
            data_rate: DataRate::Rate400Hz,
        }
    }
}

} // verus!
