//! Air-quality score and category from humidity and gas resistance.
use vstd::prelude::*;

verus! {

/// Six-level air-quality category, best first.
#[derive(Clone, Copy, Debug, PartialEq, Eq, Structural)]
pub enum AirQuality {
    Good,
    Moderate,
    UnhealthyForSensitiveGroups,
    Unhealthy,
    VeryUnhealthy,
    Hazardous,
}

/// Step function from a total score to its category; bucket edges at
/// 50, 150, 175, 200 and 300.
pub open spec fn category_of(score: int) -> AirQuality {
    if score < 50 {
        AirQuality::Good
    } else if score < 150 {
        AirQuality::Moderate
    } else if score < 175 {
        AirQuality::UnhealthyForSensitiveGroups
    } else if score < 200 {
        AirQuality::Unhealthy
    } else if score < 300 {
        AirQuality::VeryUnhealthy
    } else {
        AirQuality::Hazardous
    }
}

/// Relative humidity (in thousandths of a percent) below which the
/// humidity sub-score ramps up from zero.
pub const HUMIDITY_BAND_LOW: u32 = 38_000;

/// Relative humidity (in thousandths of a percent) above which the
/// humidity sub-score ramps up from the flat band value.
pub const HUMIDITY_BAND_HIGH: u32 = 42_000;

/// Reference humidity, 40 %, in thousandths of a percent.
pub const HUMIDITY_REF: u32 = 40_000;

pub const GAS_LOWER_LIMIT: u32 = 5000;
pub const GAS_UPPER_LIMIT: u32 = 50000;
pub const GAS_LIMITS_DIFF: u32 = 45000;

/// Humidity sub-score for a relative humidity given in thousandths of a
/// percent: a linear ramp 0 -> 25 below the band around 40 %, flat 25 inside
/// the band (40 % +/- 2), and a linear ramp 25 -> 66 from the band up to 100 %.
pub open spec fn humidity_score(h: int) -> int {
    if h < HUMIDITY_BAND_LOW {
        25 * h / HUMIDITY_REF as int
    } else if h <= HUMIDITY_BAND_HIGH {
        25
    } else {
        25 + 41 * (h - HUMIDITY_BAND_HIGH) / 58_000
    }
}

/// The reference resistance that a gas reading is clamped to.
pub open spec fn gas_reference(gas: int) -> int {
    if gas < GAS_LOWER_LIMIT {
        GAS_LOWER_LIMIT as int
    } else if gas < GAS_UPPER_LIMIT {
        GAS_UPPER_LIMIT as int / 2
    } else {
        GAS_UPPER_LIMIT as int
    }
}

/// Gas sub-score: the reference resistance interpolated into 0..=75.
pub open spec fn gas_score(gas: int) -> int {
    75 * (gas_reference(gas) - GAS_LOWER_LIMIT) / GAS_LIMITS_DIFF as int
}

/// Total air-quality score.
pub open spec fn score_of(humidity: int, gas: int) -> int {
    humidity_score(humidity) + gas_score(gas)
}

/// Maps a total score to its category.
pub fn aiq_from_score(score: u32) -> (r: AirQuality)
    ensures
        r == category_of(score as int),
{
    if score < 50 {
        AirQuality::Good
    } else if score < 150 {
        AirQuality::Moderate
    } else if score < 175 {
        AirQuality::UnhealthyForSensitiveGroups
    } else if score < 200 {
        AirQuality::Unhealthy
    } else if score < 300 {
        AirQuality::VeryUnhealthy
    } else {
        AirQuality::Hazardous
    }
}

/// Air-quality score and category from relative humidity (thousandths of a
/// percent) and gas resistance (ohms). Every input is accepted; on the
/// physical humidity range (0 to 100 %) the score never exceeds 141.
pub fn calculate(humidity: u32, gas: u32) -> (r: (u32, AirQuality))
    ensures
        r.0 == score_of(humidity as int, gas as int),
        r.1 == category_of(r.0 as int),
        humidity <= 100_000 ==> r.0 <= 141,
{
    let h = humidity as u64;
    let hum_score: u64 = if humidity < HUMIDITY_BAND_LOW {
        assert(25 * h / 40_000 <= 25) by (nonlinear_arith)
            requires
                h < 38_000,
        ;
        25 * h / (HUMIDITY_REF as u64)
    } else if humidity <= HUMIDITY_BAND_HIGH {
        25
    } else {
        assert(41 * (h - 42_000) / 58_000 <= 41 * h / 58_000) by (nonlinear_arith)
            requires
                h > 42_000,
        ;
        assert(41 * h / 58_000 <= 3_100_000) by (nonlinear_arith)
            requires
                h < 0x1_0000_0000,
        ;
        if humidity <= 100_000 {
            assert(41 * (h - 42_000) / 58_000 <= 41) by (nonlinear_arith)
                requires
                    h <= 100_000,
                    h > 42_000,
            ;
        }
        25 + 41 * (h - HUMIDITY_BAND_HIGH as u64) / 58_000
    };
    let gas_ref: u32 = if gas < GAS_LOWER_LIMIT {
        GAS_LOWER_LIMIT
    } else if gas < GAS_UPPER_LIMIT {
        GAS_UPPER_LIMIT / 2
    } else {
        GAS_UPPER_LIMIT
    };
    let gas_score: u32 = 75 * (gas_ref - GAS_LOWER_LIMIT) / GAS_LIMITS_DIFF;
    let score = hum_score as u32 + gas_score;
    (score, aiq_from_score(score))
}

} // verus!
