//! One timestamped sensor snapshot.
use vstd::prelude::*;

verus! {

/// One sensor snapshot. Every reading is optional: `None` means that the
/// sensor gave no value this cycle. Readings are fixed-point integers in
/// thousandths of their unit (degrees Celsius, hectopascal, percent relative
/// humidity, lux); gas resistance is in ohms and the air-quality score is a
/// plain integer.
#[derive(Clone, Copy, Debug, PartialEq, Eq, Structural)]
pub struct Sample {
    pub timestamp: u32,
    pub temperature: Option<i32>,
    pub pressure: Option<i32>,
    pub humidity: Option<i32>,
    pub hum_sht40: Option<i32>,
    pub temp_sht40: Option<i32>,
    pub press_bmp390: Option<i32>,
    pub temp_bmp390: Option<i32>,
    pub gas_ohm: Option<u32>,
    pub lux_veml7700: Option<i32>,
    pub lux_bh1750: Option<i32>,
    pub aiq_score: Option<u32>,
}

impl Sample {
    /// A sample with the given timestamp and no readings.
    pub fn new(timestamp: u32) -> (r: Sample)
        ensures
            r == Sample::empty_at(timestamp),
    {
        Sample {
            timestamp,
            temperature: None,
            pressure: None,
            humidity: None,
            hum_sht40: None,
            temp_sht40: None,
            press_bmp390: None,
            temp_bmp390: None,
            gas_ohm: None,
            lux_veml7700: None,
            lux_bh1750: None,
            aiq_score: None,
        }
    }

    pub open spec fn empty_at(timestamp: u32) -> Sample {
        Sample {
            timestamp,
            temperature: None,
            pressure: None,
            humidity: None,
            hum_sht40: None,
            temp_sht40: None,
            press_bmp390: None,
            temp_bmp390: None,
            gas_ohm: None,
            lux_veml7700: None,
            lux_bh1750: None,
            aiq_score: None,
        }
    }
}

} // verus!
