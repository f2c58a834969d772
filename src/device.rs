//! Format selection and the per-device output record.

use vstd::prelude::*;
use crate::ruuvi3::{decode_v3, Ruuvi3};
use crate::ruuvi5::Ruuvi5;

verus! {

/// Manufacturer data of one advertisement: (manufacturer id, payload) entries.
pub type MfgData = Vec<(u16, Vec<u8>)>;

/// The manufacturer id under which both payload formats are broadcast.
pub const RUUVI_ID: u16 = 0x0499;

/// The payload format that an entry selects, if any: the id must match, and
/// the first byte must name a format whose length the payload has.
pub open spec fn selected_format(id: u16, b: Seq<u8>) -> Option<u8> {
    if id == RUUVI_ID && b.len() == 14 && b[0] == 3 {
        Some(3u8)
    } else if id == RUUVI_ID && b.len() == 24 && b[0] == 5 {
        Some(5u8)
    } else {
        None
    }
}

/// A decoded reading of either format.
#[derive(Clone, Debug, PartialEq, Eq)]
pub enum SensorData {
    Ruuvi3(Ruuvi3),
    Ruuvi5(Ruuvi5),
}

/// `r` is what the entry `(id, b)` decodes to: no reading when it selects no
/// format, else the decoding of `b` in the format that it selects.
pub open spec fn entry_decodes(id: u16, b: Seq<u8>, r: Option<SensorData>) -> bool {
    match r {
        None => selected_format(id, b) is None,
        Some(SensorData::Ruuvi3(v)) => selected_format(id, b) == Some(3u8) && v == decode_v3(b),
        Some(SensorData::Ruuvi5(v)) => selected_format(id, b) == Some(5u8) && v.decodes(b),
    }
}

/// `r` is what the manufacturer data `d` decodes to. Only data with exactly
/// one entry is decoded: several vendors' entries are ambiguous and give no
/// reading, as does empty data.
pub open spec fn dispatches(d: Seq<(u16, Vec<u8>)>, r: Option<SensorData>) -> bool {
    if d.len() == 1 {
        entry_decodes(d[0].0, d[0].1@, r)
    } else {
        r is None
    }
}

impl SensorData {
    /// Decodes one manufacturer-data entry.
    pub fn from_entry(id: u16, payload: &[u8]) -> (r: Option<SensorData>)
        ensures
            entry_decodes(id, payload@, r),
            selected_format(id, payload@) is Some ==> r is Some,
            id != RUUVI_ID || payload@.len() == 0 || (payload@[0] != 3 && payload@[0] != 5)
                || (payload@[0] == 3 && payload@.len() != 14)
                || (payload@[0] == 5 && payload@.len() != 24) ==> r is None,
    {
        let len = payload.len();
        if id != RUUVI_ID || len == 0 {
            None
        } else if payload[0] == 3 && len == 14 {
            Some(SensorData::Ruuvi3(Ruuvi3::new(payload)))
        } else if payload[0] == 5 && len == 24 {
            Some(SensorData::Ruuvi5(Ruuvi5::new(payload)))
        } else {
            None
        }
    }

    /// Decodes manufacturer data that holds a single entry.
    pub fn new(dict: &MfgData) -> (r: Option<SensorData>)
        ensures
            dispatches(dict@, r),
    {
        if dict.len() != 1 {
            None
        } else {
            let entry = &dict[0];
            SensorData::from_entry(entry.0, entry.1.as_slice())
        }
    }
}

/// The record served for one configured device.
#[derive(Clone, Debug, PartialEq, Eq)]
pub struct Data {
    pub name: String,
    pub address: String,
    pub rssi: Option<i16>,
    pub sensor_data: Option<SensorData>,
}

impl Data {
    /// Joins a device's label and address with the signal strength and the
    /// manufacturer data that the radio stack reported for it (either may be
    /// missing, which leaves the field absent).
    pub fn new(name: &str, addr: &str, rssi: Option<i16>, mfg_data: Option<MfgData>) -> (r: Data)
        ensures
            r.name@ == name@,
            r.address@ == addr@,
            r.rssi == rssi,
            match mfg_data {
                Some(d) => dispatches(d@, r.sensor_data),
                None => r.sensor_data is None,
            },
    {
        let sensor_data = match &mfg_data {
            Some(d) => SensorData::new(d),
            None => None,
        };
        Data { name: name.to_owned(), address: addr.to_owned(), rssi, sensor_data }
    }
}

} // verus!
