//! The 24-byte extended payload (data format 5).

use vstd::prelude::*;
use vstd::string::StrSliceExecFns;
use crate::fields::{accel_of, acceleration, be_i16, be_u16, pressure, pressure_of, read_i16, read_u16};

verus! {

/// A format-5 reading. Fractional quantities are in thousandths of their unit.
#[derive(Clone, Debug, PartialEq, Eq)]
pub struct Ruuvi5 {
    pub data_format: u8,
    /// Temperature, thousandths of a degree Celsius.
    pub temperature: Option<i32>,
    /// Relative humidity, thousandths of a percent.
    pub humidity: Option<u32>,
    /// Pressure, pascals.
    pub pressure: Option<u32>,
    /// Acceleration, thousandths of g.
    pub acceleration_x: Option<i32>,
    pub acceleration_y: Option<i32>,
    pub acceleration_z: Option<i32>,
    /// Battery voltage, millivolts.
    pub voltage: Option<u32>,
    /// Transmit power, dBm.
    pub tx_power: Option<i8>,
    pub movement_counter: Option<u8>,
    pub measurement_sequence: Option<u16>,
    /// The sender's address as a canonical MAC string.
    pub mac: Option<String>,
}

/// Temperature in steps of 0.005 degrees; `i16::MIN` marks it unavailable.
pub open spec fn temperature_v5(b: Seq<u8>) -> Option<i32> {
    if be_i16(b, 1) == -0x8000 {
        None
    } else {
        Some((be_i16(b, 1) * 5) as i32)
    }
}

/// Humidity in steps of 0.0025 percent, valid up to 40000 steps, rounded
/// half up to thousandths.
pub open spec fn humidity_v5(b: Seq<u8>) -> Option<u32> {
    if be_u16(b, 3) <= 40000 {
        Some(((be_u16(b, 3) * 5 + 1) / 2) as u32)
    } else {
        None
    }
}

/// Voltage from the upper 11 bits of the power word: millivolts above 1600,
/// valid up to 2046.
pub open spec fn voltage_v5(b: Seq<u8>) -> Option<u32> {
    let v = be_u16(b, 13) / 32;
    if v <= 2046 {
        Some((v + 1600) as u32)
    } else {
        None
    }
}

/// Transmit power from the lower 5 bits of the power word: steps of 2 dBm
/// above -40, valid up to 30 steps.
pub open spec fn tx_power_v5(b: Seq<u8>) -> Option<i8> {
    let v = b[14] % 32;
    if v <= 30 {
        Some((v * 2 - 40) as i8)
    } else {
        None
    }
}

pub open spec fn movement_counter_v5(b: Seq<u8>) -> Option<u8> {
    if b[15] == 0xFF {
        None
    } else {
        Some(b[15])
    }
}

pub open spec fn measurement_sequence_v5(b: Seq<u8>) -> Option<u16> {
    if be_u16(b, 16) == 0xFFFF {
        None
    } else {
        Some(be_u16(b, 16) as u16)
    }
}

/// Upper-case hexadecimal digits.
pub open spec fn hex_digits() -> Seq<char> {
    seq!['0', '1', '2', '3', '4', '5', '6', '7', '8', '9', 'A', 'B', 'C', 'D', 'E', 'F']
}

/// Two upper-case hexadecimal digits of a byte.
pub open spec fn byte_hex(x: u8) -> Seq<char> {
    seq![hex_digits()[x as int / 16], hex_digits()[x as int % 16]]
}

/// The canonical MAC text of the six bytes of `b` from `i`.
pub open spec fn mac_text(b: Seq<u8>, i: int) -> Seq<char> {
    byte_hex(b[i]) + seq![':'] + byte_hex(b[i + 1]) + seq![':'] + byte_hex(b[i + 2]) + seq![':']
        + byte_hex(b[i + 3]) + seq![':'] + byte_hex(b[i + 4]) + seq![':'] + byte_hex(b[i + 5])
}

/// The address field: absent when all six bytes are `0xFF`.
pub open spec fn mac_v5(b: Seq<u8>) -> Option<Seq<char>> {
    if forall|k: int| 18 <= k < 24 ==> b[k] == 0xFF {
        None
    } else {
        Some(mac_text(b, 18))
    }
}

impl Ruuvi5 {
    /// The reading that a format-5 payload `b` encodes.
    pub open spec fn decodes(&self, b: Seq<u8>) -> bool {
        &&& self.data_format == b[0]
        &&& self.temperature == temperature_v5(b)
        &&& self.humidity == humidity_v5(b)
        &&& self.pressure == pressure_of(b, 5)
        &&& self.acceleration_x == accel_of(b, 7)
        &&& self.acceleration_y == accel_of(b, 9)
        &&& self.acceleration_z == accel_of(b, 11)
        &&& self.voltage == voltage_v5(b)
        &&& self.tx_power == tx_power_v5(b)
        &&& self.movement_counter == movement_counter_v5(b)
        &&& self.measurement_sequence == measurement_sequence_v5(b)
        &&& match self.mac {
            Some(m) => mac_v5(b) == Some(m@),
            None => mac_v5(b) is None,
        }
    }

    /// Decodes a 24-byte format-5 payload. Decoding is total: every field
    /// that fails its range rule is absent, and nothing else can go wrong.
    pub fn new(input: &[u8]) -> (r: Ruuvi5)
        requires
            input@.len() == 24,
        ensures
            r.decodes(input@),
    {
        let raw_temperature = read_i16(input, 1);
        let temperature = if raw_temperature == i16::MIN {
            None
        } else {
            Some(raw_temperature as i32 * 5)
        };

        let raw_humidity = read_u16(input, 3);
        let humidity = if raw_humidity <= 40000 {
            Some((raw_humidity as u32 * 5 + 1) / 2)
        } else {
            None
        };

        // Power word, bytes 13..14: bits 15..5 voltage, bits 4..0 tx power.
        let word = read_u16(input, 13);
        let raw_voltage = word >> 5;
        assert(word >> 5 == word / 32) by (bit_vector);
        let voltage = if raw_voltage <= 2046 {
            Some(raw_voltage as u32 + 1600)
        } else {
            None
        };
        let power_byte = input[14];
        let raw_tx_power = power_byte & 0x1f;
        assert(power_byte & 0x1f == power_byte % 32) by (bit_vector);
        let tx_power = if raw_tx_power <= 30 {
            Some(raw_tx_power as i8 * 2 - 40)
        } else {
            None
        };

        let movement_counter = if input[15] == u8::MAX {
            None
        } else {
            Some(input[15])
        };
        let raw_sequence = read_u16(input, 16);
        let measurement_sequence = if raw_sequence == u16::MAX {
            None
        } else {
            Some(raw_sequence)
        };

        Ruuvi5 {
            data_format: input[0],
            temperature,
            humidity,
            pressure: pressure(input, 5),
            acceleration_x: acceleration(input, 7),
            acceleration_y: acceleration(input, 9),
            acceleration_z: acceleration(input, 11),
            voltage,
            tx_power,
            movement_counter,
            measurement_sequence,
            mac: mac(input),
        }
    }
}

/// Appends the two upper-case hexadecimal digits of `x` to `s`.
fn push_hex(s: &mut String, x: u8)
    ensures
        final(s)@ == old(s)@ + byte_hex(x),
{
    let digits: &str = "0123456789ABCDEF";
    proof {
        reveal_strlit("0123456789ABCDEF");
        assert(digits@ =~= hex_digits());
    }
    let hi = (x / 16) as usize;
    let lo = (x % 16) as usize;
    s.append(digits.substring_ascii(hi, hi + 1));
    s.append(digits.substring_ascii(lo, lo + 1));
    assert(final(s)@ =~= old(s)@ + byte_hex(x));
}

/// The address field, bytes 18..23: absent when all six are `0xFF`.
fn mac(b: &[u8]) -> (r: Option<String>)
    requires
        b@.len() == 24,
    ensures
        match r {
            Some(m) => mac_v5(b@) == Some(m@),
            None => mac_v5(b@) is None,
        },
{
    let i: usize = 18;
    let mut all_ff = true;
    let mut k: usize = i;
    while k < i + 6
        invariant
            i <= k <= i + 6,
            b@.len() == 24,
            i == 18,
            all_ff == forall|j: int| i <= j < k ==> b@[j] == 0xFF,
        decreases i + 6 - k,
    {
        if b[k] != 0xFF {
            all_ff = false;
        }
        k = k + 1;
    }
    if all_ff {
        return None;
    }
    let colon: &str = ":";
    proof {
        reveal_strlit(":");
    }
    let mut s = String::new();
    push_hex(&mut s, b[i]);
    s.append(colon);
    push_hex(&mut s, b[i + 1]);
    s.append(colon);
    push_hex(&mut s, b[i + 2]);
    s.append(colon);
    push_hex(&mut s, b[i + 3]);
    s.append(colon);
    push_hex(&mut s, b[i + 4]);
    s.append(colon);
    push_hex(&mut s, b[i + 5]);
    assert(s@ =~= mac_text(b@, i as int));
    Some(s)
}

} // verus!
