//! One acquisition cycle: warm-up, merging sensor readings into a sample, queueing it.
use vstd::prelude::*;

use crate::air_quality::{calculate, score_of};
use crate::queue::{after_enqueue, enqueue_accepts, SampleQueue};
use crate::sample::Sample;

verus! {

/// Discarded cycles after start-up, while the sensors settle.
pub const WARMUP_CYCLES: u8 = 10;

/// Target length of one acquisition cycle, in milliseconds.
pub const SAMPLE_PERIOD_MS: u64 = 60_000;

/// One BME680 reading, in thousandths (percent, hectopascal, degrees
/// Celsius) and ohms.
#[derive(Clone, Copy, Debug, PartialEq, Eq, Structural)]
pub struct BmeReading {
    pub humidity: i32,
    pub pressure: i32,
    pub temperature: i32,
    pub gas_ohm: u32,
}

/// One SHT40 reading, in thousandths of a percent and of a degree Celsius.
#[derive(Clone, Copy, Debug, PartialEq, Eq, Structural)]
pub struct ShtReading {
    pub humidity: i32,
    pub temperature: i32,
}

/// One BMP390 reading, in thousandths of a degree Celsius and of a hectopascal.
#[derive(Clone, Copy, Debug, PartialEq, Eq, Structural)]
pub struct BmpReading {
    pub temperature: i32,
    pub pressure: i32,
}

/// What the present sensors gave this cycle; `None` for a sensor that is
/// missing or whose read failed.
#[derive(Clone, Copy, Debug, PartialEq, Eq, Structural)]
pub struct Readings {
    pub bme680: Option<BmeReading>,
    pub sht40: Option<ShtReading>,
    pub bmp390: Option<BmpReading>,
    pub lux_veml7700: Option<i32>,
    pub lux_bh1750: Option<i32>,
}

/// Outcome of one acquisition cycle.
#[derive(Clone, Copy, Debug, PartialEq, Eq, Structural)]
pub enum CycleOutcome {
    /// Still warming up: the readings were discarded.
    WarmingUp,
    /// The sample was queued.
    Queued,
    /// The queue was full: the sample was dropped.
    QueueFull,
}

/// Humidity as the scorer takes it: a negative reading counts as 0 %.
pub open spec fn humidity_input(h: i32) -> int {
    if h < 0 {
        0
    } else {
        h as int
    }
}

/// The sample for one cycle: the timestamp, each reading that is present,
/// and the air-quality score when the BME680 gave humidity and gas.
pub open spec fn merged(timestamp: u32, r: Readings) -> Sample {
    Sample {
        timestamp,
        temperature: match r.bme680 {
            Some(b) => Some(b.temperature),
            None => None,
        },
        pressure: match r.bme680 {
            Some(b) => Some(b.pressure),
            None => None,
        },
        humidity: match r.bme680 {
            Some(b) => Some(b.humidity),
            None => None,
        },
        hum_sht40: match r.sht40 {
            Some(s) => Some(s.humidity),
            None => None,
        },
        temp_sht40: match r.sht40 {
            Some(s) => Some(s.temperature),
            None => None,
        },
        press_bmp390: match r.bmp390 {
            Some(p) => Some(p.pressure),
            None => None,
        },
        temp_bmp390: match r.bmp390 {
            Some(p) => Some(p.temperature),
            None => None,
        },
        gas_ohm: match r.bme680 {
            Some(b) => Some(b.gas_ohm),
            None => None,
        },
        lux_veml7700: r.lux_veml7700,
        lux_bh1750: r.lux_bh1750,
        aiq_score: match r.bme680 {
            Some(b) => Some(score_of(humidity_input(b.humidity), b.gas_ohm as int) as u32),
            None => None,
        },
    }
}

/// Merges one cycle's readings into a timestamped sample.
pub fn merge_readings(timestamp: u32, readings: &Readings) -> (s: Sample)
    ensures
        s == merged(timestamp, *readings),
{
    let mut sample = Sample::new(timestamp);
    sample.lux_bh1750 = readings.lux_bh1750;
    sample.lux_veml7700 = readings.lux_veml7700;
    match readings.bme680 {
        Some(b) => {
            let h: u32 = if b.humidity < 0 {
                0
            } else {
                b.humidity as u32
            };
            let (score, _) = calculate(h, b.gas_ohm);
            sample.humidity = Some(b.humidity);
            sample.pressure = Some(b.pressure);
            sample.temperature = Some(b.temperature);
            sample.aiq_score = Some(score);
            sample.gas_ohm = Some(b.gas_ohm);
        },
        None => {},
    }
    match readings.sht40 {
        Some(s) => {
            sample.hum_sht40 = Some(s.humidity);
            sample.temp_sht40 = Some(s.temperature);
        },
        None => {},
    }
    match readings.bmp390 {
        Some(p) => {
            sample.temp_bmp390 = Some(p.temperature);
            sample.press_bmp390 = Some(p.pressure);
        },
        None => {},
    }
    sample
}

/// How long to sleep after a cycle that took `elapsed_ms`: the rest of the
/// period, or nothing when the cycle overran it.
pub fn cycle_delay_ms(period_ms: u64, elapsed_ms: u64) -> (r: u64)
    ensures
        elapsed_ms < period_ms ==> r == period_ms - elapsed_ms,
        elapsed_ms >= period_ms ==> r == 0,
{
    if elapsed_ms < period_ms {
        period_ms - elapsed_ms
    } else {
        0
    }
}

/// The acquisition loop's own state: cycles still to discard.
pub struct Acquisition {
    pub warmup_left: u8,
}

impl Acquisition {
    /// A loop that discards its first `warmup_cycles` cycles.
    pub fn new(warmup_cycles: u8) -> (r: Acquisition)
        ensures
            r.warmup_left == warmup_cycles,
    {
        Acquisition { warmup_left: warmup_cycles }
    }

    /// One cycle: while warming up the readings are discarded; after that
    /// they are merged into a sample stamped `timestamp` and queued, or
    /// dropped when the queue is full.
    pub fn cycle(&mut self, timestamp: u32, readings: &Readings, queue: &mut SampleQueue) -> (r:
        CycleOutcome)
        requires
            old(queue).wf(),
        ensures
            final(queue).wf(),
            old(self).warmup_left > 0 ==> r == CycleOutcome::WarmingUp,
            old(self).warmup_left > 0 ==> final(self).warmup_left == old(self).warmup_left - 1,
            old(self).warmup_left > 0 ==> final(queue)@ == old(queue)@,
            old(self).warmup_left == 0 ==> final(self).warmup_left == 0,
            old(self).warmup_left == 0 ==> final(queue)@ == after_enqueue(
                old(queue)@,
                merged(timestamp, *readings),
            ),
            old(self).warmup_left == 0 && enqueue_accepts(old(queue)@) ==> r == CycleOutcome::Queued,
            old(self).warmup_left == 0 && !enqueue_accepts(old(queue)@) ==> r
                == CycleOutcome::QueueFull,
    {
        if self.warmup_left > 0 {
            self.warmup_left = self.warmup_left - 1;
            return CycleOutcome::WarmingUp;
        }
        let sample = merge_readings(timestamp, readings);
        match queue.enqueue(sample) {
            Ok(()) => CycleOutcome::Queued,
            Err(_) => CycleOutcome::QueueFull,
        }
    }
}

} // verus!
