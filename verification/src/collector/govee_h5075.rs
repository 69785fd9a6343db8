//! Decoder for the Govee H5075 manufacturer-data payload.
//!
//! A reading is carried in a 6-byte blob keyed by the company identifier
//! `0xEC88` inside the advertisement's manufacturer-data map. Bytes 1 to 3
//! hold a 23-bit magnitude whose last three decimal digits are the humidity
//! in tenths of a percent and whose remaining digits are the absolute
//! temperature in tenths of a degree Celsius; bit 7 of byte 1 is the
//! temperature sign, and byte 4 is the battery percentage.

use std::collections::HashMap;
use vstd::prelude::*;

verus! {

/// One decoded sensor reading: temperature in tenths of a degree Celsius
/// (signed), humidity in tenths of a percent, battery percentage.
#[derive(Debug, Copy, Clone, PartialEq, Eq, Structural)]
pub struct DeviceData {
    pub temperature: i32,
    pub humidity: u16,
    pub battery: u8,
}

/// Why a payload map could not be decoded.
#[derive(Debug, Copy, Clone, PartialEq, Eq, Structural)]
pub enum DeviceDataError {
    /// The company identifier `0xEC88` is absent from the payload map.
    UnsupportedDevice,
    /// The byte blob under `0xEC88` is not exactly 6 bytes long.
    InvalidData,
}

pub const H5075_UPDATE_UUID16: u16 = 0xEC88;

/// The 23-bit magnitude carried in bytes 1 to 3 of a 6-byte payload.
pub open spec fn combined_of(b: Seq<u8>) -> nat
    recommends
        b.len() == 6,
{
    ((b[1] & 0x7f) as nat) * 0x10000 + (b[2] as nat) * 0x100 + (b[3] as nat)
}

/// Bit 7 of byte 1 marks a negative temperature.
pub open spec fn sign_bit_set(b: Seq<u8>) -> bool
    recommends
        b.len() == 6,
{
    b[1] & 0x80 != 0
}

/// Temperature in tenths of a degree Celsius: the magnitude's leading
/// decimal digits, negated when the sign bit is set. Division truncates
/// on the unsigned magnitude, before the sign is applied.
pub open spec fn temperature_tenths_of(b: Seq<u8>) -> int
    recommends
        b.len() == 6,
{
    if sign_bit_set(b) {
        -((combined_of(b) / 1000) as int)
    } else {
        (combined_of(b) / 1000) as int
    }
}

/// Humidity in tenths of a percent: the magnitude's last three decimal digits.
pub open spec fn humidity_tenths_of(b: Seq<u8>) -> nat
    recommends
        b.len() == 6,
{
    combined_of(b) % 1000
}

/// A manufacturer-data map decodes successfully exactly when the company
/// identifier is present and its blob is exactly 6 bytes.
pub open spec fn valid_payload(m: Map<u16, Vec<u8>>) -> bool {
    m.contains_key(H5075_UPDATE_UUID16) && m[H5075_UPDATE_UUID16]@.len() == 6
}

/// The reading a valid 6-byte payload decodes to.
pub open spec fn decoded_of(b: Seq<u8>) -> DeviceData
    recommends
        b.len() == 6,
{
    DeviceData {
        temperature: temperature_tenths_of(b) as i32,
        humidity: humidity_tenths_of(b) as u16,
        battery: b[4],
    }
}

impl DeviceData {
    /// Decode the blob keyed by the Govee company identifier out of an
    /// advertisement's manufacturer-data map. Never panics: every
    /// malformed input yields a `DeviceDataError`.
    pub fn decode(manufacturer_data: &HashMap<u16, Vec<u8>>) -> (r: Result<
        DeviceData,
        DeviceDataError,
    >)
        ensures
            valid_payload(manufacturer_data@) ==> r == Ok::<DeviceData, DeviceDataError>(
                decoded_of(manufacturer_data@[H5075_UPDATE_UUID16]@),
            ),
            !manufacturer_data@.contains_key(H5075_UPDATE_UUID16) ==> r == Err::<
                DeviceData,
                DeviceDataError,
            >(DeviceDataError::UnsupportedDevice),
            manufacturer_data@.contains_key(H5075_UPDATE_UUID16)
                && manufacturer_data@[H5075_UPDATE_UUID16]@.len() != 6 ==> r == Err::<
                DeviceData,
                DeviceDataError,
            >(DeviceDataError::InvalidData),
            r matches Ok(d) ==> d.battery == manufacturer_data@[H5075_UPDATE_UUID16]@[4],
            r matches Ok(d) ==> d.humidity == combined_of(
                manufacturer_data@[H5075_UPDATE_UUID16]@,
            ) % 1000,
            r matches Ok(d) ==> d.temperature == temperature_tenths_of(
                manufacturer_data@[H5075_UPDATE_UUID16]@,
            ),
    {
        let bytes: &Vec<u8> = match manufacturer_data.get(&H5075_UPDATE_UUID16) {
            Some(data) => data,
            None => {
                return Err(DeviceDataError::UnsupportedDevice);
            },
        };
        if bytes.len() != 6 {
            return Err(DeviceDataError::InvalidData);
        }
        let b1 = bytes[1];
        let b2 = bytes[2];
        let b3 = bytes[3];
        assert(b1 & 0x7f <= 0x7f) by (bit_vector);
        let raw_data: u32 = ((b1 & 0x7f) as u32) * 0x10000 + (b2 as u32) * 0x100 + (b3 as u32);
        let battery = bytes[4];
        let humidity = (raw_data % 1000) as u16;
        let magnitude = (raw_data / 1000) as i32;
        let temperature = if b1 & 0x80 != 0 {
            -magnitude
        } else {
            magnitude
        };
        Ok(DeviceData { temperature, humidity, battery })
    }

    /// Temperature in tenths of a degree Celsius, sign included.
    pub fn temperature_tenths(&self) -> (t: i32)
        ensures
            t == self.temperature,
    {
        self.temperature
    }

    /// Humidity in tenths of a percent.
    pub fn humidity_tenths(&self) -> (h: u16)
        ensures
            h == self.humidity,
    {
        self.humidity
    }

    /// Battery percentage, byte 4 of the payload verbatim.
    pub fn battery(&self) -> (b: u8)
        ensures
            b == self.battery,
    {
        self.battery
    }
}

impl DeviceDataError {
    /// A short human-readable description of the error.
    pub fn message(&self) -> (m: &'static str)
        ensures
            self is UnsupportedDevice ==> m@ == "unsupported device"@,
            self is InvalidData ==> m@ == "invalid data"@,
    {
        match self {
            DeviceDataError::UnsupportedDevice => "unsupported device",
            DeviceDataError::InvalidData => "invalid data",
        }
    }
}

/// Law: a payload whose sign bit is set decodes to a temperature that is
/// negative or exactly zero.
pub proof fn lemma_sign_bit_nonpositive_temperature(b: Seq<u8>)
    requires
        b.len() == 6,
        sign_bit_set(b),
    ensures
        temperature_tenths_of(b) <= 0,
{
}

} // verus!
