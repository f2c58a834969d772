use ble2json::ruuvi3::Ruuvi3;

const VALID_INPUT: &[u8; 14] = b"\x03\x29\x1A\x1E\xCE\x1E\xFC\x18\xF9\x42\x02\xCA\x0B\x53";

const MAX_INPUT: &[u8; 14] = b"\x03\xC8\x7F\x63\xFF\xFE\x7F\xFF\x7F\xFF\x7F\xFF\x0E\x3E";

const MIN_INPUT: &[u8; 14] = b"\x03\x00\xFF\x63\x00\x00\x80\x01\x80\x01\x80\x01\x06\x40";

const INVALID_INPUT: &[u8; 14] = b"\x03\xFF\xFF\xFF\xFF\xFF\x80\x00\x80\x00\x80\x00\xFF\xFF";

/// A reading in the units of the wire format.
#[derive(Debug, PartialEq)]
struct Wire {
    data_format: u8,
    humidity: Option<f32>,
    temperature: Option<f32>,
    pressure: Option<u32>,
    acceleration_x: Option<f32>,
    acceleration_y: Option<f32>,
    acceleration_z: Option<f32>,
    voltage: Option<f32>,
}

fn unit_u(v: Option<u32>) -> Option<f32> {
    v.map(|n| n as f32 / 1000.0)
}

fn unit_i(v: Option<i32>) -> Option<f32> {
    v.map(|n| n as f32 / 1000.0)
}

fn wire(r: &Ruuvi3) -> Wire {
    Wire {
        data_format: r.data_format,
        humidity: unit_u(r.humidity),
        temperature: unit_i(r.temperature),
        pressure: r.pressure,
        acceleration_x: unit_i(r.acceleration_x),
        acceleration_y: unit_i(r.acceleration_y),
        acceleration_z: unit_i(r.acceleration_z),
        voltage: unit_u(r.voltage),
    }
}

fn to_json(w: &Wire) -> String {
    let mut m = serde_json::Map::new();
    m.insert("dataFormat".to_string(), serde_json::to_value(w.data_format).unwrap());
    m.insert("humidity".to_string(), serde_json::to_value(w.humidity).unwrap());
    m.insert("temperature".to_string(), serde_json::to_value(w.temperature).unwrap());
    m.insert("pressure".to_string(), serde_json::to_value(w.pressure).unwrap());
    m.insert("accelerationX".to_string(), serde_json::to_value(w.acceleration_x).unwrap());
    m.insert("accelerationY".to_string(), serde_json::to_value(w.acceleration_y).unwrap());
    m.insert("accelerationZ".to_string(), serde_json::to_value(w.acceleration_z).unwrap());
    m.insert("voltage".to_string(), serde_json::to_value(w.voltage).unwrap());
    serde_json::Value::Object(m).to_string()
}

fn field<T: serde::de::DeserializeOwned>(v: &serde_json::Value, key: &str) -> T {
    serde_json::from_value(v[key].clone()).unwrap()
}

fn from_json(s: &str) -> Wire {
    let v: serde_json::Value = serde_json::from_str(s).unwrap();
    Wire {
        data_format: field(&v, "dataFormat"),
        humidity: field(&v, "humidity"),
        temperature: field(&v, "temperature"),
        pressure: field(&v, "pressure"),
        acceleration_x: field(&v, "accelerationX"),
        acceleration_y: field(&v, "accelerationY"),
        acceleration_z: field(&v, "accelerationZ"),
        voltage: field(&v, "voltage"),
    }
}

fn valid_output() -> Wire {
    Wire {
        data_format: 3,
        humidity: Some(20.5),
        temperature: Some(26.3),
        pressure: Some(102766),
        acceleration_x: Some(-1.0),
        acceleration_y: Some(-1.726),
        acceleration_z: Some(0.714),
        voltage: Some(2.899),
    }
}

fn max_output() -> Wire {
    Wire {
        data_format: 3,
        humidity: Some(100.0),
        temperature: Some(127.99),
        pressure: Some(115534),
        acceleration_x: Some(32.767),
        acceleration_y: Some(32.767),
        acceleration_z: Some(32.767),
        voltage: Some(3.646),
    }
}

fn min_output() -> Wire {
    Wire {
        data_format: 3,
        humidity: Some(0.0),
        temperature: Some(-127.99),
        pressure: Some(50000),
        acceleration_x: Some(-32.767),
        acceleration_y: Some(-32.767),
        acceleration_z: Some(-32.767),
        voltage: Some(1.6),
    }
}

fn invalid_output() -> Wire {
    Wire {
        data_format: 3,
        humidity: None,
        temperature: None,
        pressure: None,
        acceleration_x: None,
        acceleration_y: None,
        acceleration_z: None,
        voltage: None,
    }
}

#[test]
fn ruuvi3_valid() {
    let data = Ruuvi3::new(&VALID_INPUT[..]);
    let json = to_json(&wire(&data));
    let output = from_json(&json);
    assert_eq!(&valid_output(), &output);
}

#[test]
fn ruuvi3_maximum() {
    let data = Ruuvi3::new(&MAX_INPUT[..]);
    let json = to_json(&wire(&data));
    let output = from_json(&json);
    assert_eq!(&max_output(), &output);
}

#[test]
fn ruuvi3_minimum() {
    let data = Ruuvi3::new(&MIN_INPUT[..]);
    let json = to_json(&wire(&data));
    let output = from_json(&json);
    assert_eq!(&min_output(), &output);
}

#[test]
fn ruuvi3_invalid() {
    let data = Ruuvi3::new(&INVALID_INPUT[..]);
    let json = to_json(&wire(&data));
    let output = from_json(&json);
    assert_eq!(&invalid_output(), &output);
}

#[test]
fn ruuvi3_fixed_point_values() {
    let data = Ruuvi3::new(&VALID_INPUT[..]);
    assert_eq!(
        data,
        Ruuvi3 {
            data_format: 3,
            humidity: Some(20500),
            temperature: Some(26300),
            pressure: Some(102766),
            acceleration_x: Some(-1000),
            acceleration_y: Some(-1726),
            acceleration_z: Some(714),
            voltage: Some(2899),
        }
    );
}

#[test]
fn ruuvi3_pressure_boundaries() {
    let mut input = *VALID_INPUT;
    input[4] = 0xFF;
    input[5] = 0xFE;
    assert_eq!(Ruuvi3::new(&input[..]).pressure, Some(115534));
    input[5] = 0xFF;
    assert_eq!(Ruuvi3::new(&input[..]).pressure, None);
}

#[test]
fn ruuvi3_voltage_boundaries() {
    let mut input = *VALID_INPUT;
    for (raw, expected) in [
        (1599u16, None),
        (1600, Some(1600)),
        (3646, Some(3646)),
        (3647, None),
    ] {
        input[12] = (raw >> 8) as u8;
        input[13] = (raw & 0xFF) as u8;
        assert_eq!(Ruuvi3::new(&input[..]).voltage, expected);
    }
}

#[test]
fn ruuvi3_humidity_and_temperature_boundaries() {
    let mut input = *VALID_INPUT;
    input[1] = 200;
    assert_eq!(Ruuvi3::new(&input[..]).humidity, Some(100000));
    input[1] = 201;
    assert_eq!(Ruuvi3::new(&input[..]).humidity, None);
    input[2] = 0x85;
    input[3] = 99;
    assert_eq!(Ruuvi3::new(&input[..]).temperature, Some(-5990));
    input[3] = 100;
    assert_eq!(Ruuvi3::new(&input[..]).temperature, None);
}

#[test]
fn ruuvi3_every_byte_pattern_decodes() {
    for b in 0..=255u8 {
        let input = [3, b, b, b, b, b, b, b, b, b, b, b, b, b];
        let r = Ruuvi3::new(&input[..]);
        assert_eq!(r.data_format, 3);
        assert_eq!(r.humidity.is_some(), b <= 200);
    }
}
