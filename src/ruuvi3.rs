//! The 14-byte legacy payload (data format 3).

use vstd::prelude::*;
use crate::fields::{accel_of, acceleration, be_u16, pressure, pressure_of, read_u16};

verus! {

/// A format-3 reading. Fractional quantities are in thousandths of their unit.
#[derive(Clone, Copy, Debug, PartialEq, Eq, Structural)]
pub struct Ruuvi3 {
    pub data_format: u8,
    /// Relative humidity, thousandths of a percent.
    pub humidity: Option<u32>,
    /// Temperature, thousandths of a degree Celsius.
    pub temperature: Option<i32>,
    /// Pressure, pascals.
    pub pressure: Option<u32>,
    /// Acceleration, thousandths of g.
    pub acceleration_x: Option<i32>,
    pub acceleration_y: Option<i32>,
    pub acceleration_z: Option<i32>,
    /// Battery voltage, millivolts.
    pub voltage: Option<u32>,
}

/// Humidity in half percents, valid up to 200.
pub open spec fn humidity_v3(raw: u8) -> Option<u32> {
    if raw <= 200 {
        Some((raw * 500) as u32)
    } else {
        None
    }
}

/// Temperature as sign-and-magnitude whole degrees plus hundredths;
/// hundredths of 100 or more mark it unavailable.
pub open spec fn temperature_v3(whole: u8, frac: u8) -> Option<i32> {
    if frac >= 100 {
        None
    } else if whole < 0x80 {
        Some((whole * 1000 + frac * 10) as i32)
    } else {
        Some((-((whole - 0x80) * 1000 + frac * 10)) as i32)
    }
}

/// Battery voltage in millivolts, valid from 1600 to 3646.
pub open spec fn voltage_v3(raw: int) -> Option<u32> {
    if 1600 <= raw <= 3646 {
        Some(raw as u32)
    } else {
        None
    }
}

/// The reading that a format-3 payload `b` encodes.
pub open spec fn decode_v3(b: Seq<u8>) -> Ruuvi3 {
    Ruuvi3 {
        data_format: b[0],
        humidity: humidity_v3(b[1]),
        temperature: temperature_v3(b[2], b[3]),
        pressure: pressure_of(b, 4),
        acceleration_x: accel_of(b, 6),
        acceleration_y: accel_of(b, 8),
        acceleration_z: accel_of(b, 10),
        voltage: voltage_v3(be_u16(b, 12)),
    }
}

impl Ruuvi3 {
    /// Decodes a 14-byte format-3 payload. Decoding is total: every field
    /// that fails its range rule is absent, and nothing else can go wrong.
    pub fn new(input: &[u8]) -> (r: Ruuvi3)
        requires
            input@.len() == 14,
        ensures
            r == decode_v3(input@),
    {
        let raw_humidity = input[1];
        let humidity = if raw_humidity <= 200 {
            Some(raw_humidity as u32 * 500)
        } else {
            None
        };

        let whole = input[2];
        let frac = input[3];
        // Bit 7 of the whole-degree byte is the sign, bits 6..0 the magnitude.
        let temperature = if frac >= 100 {
            None
        } else if whole & 0x80 == 0 {
            assert(whole & 0x80 == 0 ==> whole < 0x80) by (bit_vector);
            Some(whole as i32 * 1000 + frac as i32 * 10)
        } else {
            assert(whole & 0x80 != 0 ==> whole >= 0x80 && whole & 0x7f == whole - 0x80)
                by (bit_vector);
            Some(-((whole & 0x7f) as i32 * 1000 + frac as i32 * 10))
        };

        let raw_voltage = read_u16(input, 12);
        let voltage = if 1600 <= raw_voltage && raw_voltage <= 3646 {
            Some(raw_voltage as u32)
        } else {
            None
        };

        Ruuvi3 {
            data_format: input[0],
            humidity,
            temperature,
            pressure: pressure(input, 4),
            acceleration_x: acceleration(input, 6),
            acceleration_y: acceleration(input, 8),
            acceleration_z: acceleration(input, 10),
            voltage,
        }
    }
}

} // verus!
