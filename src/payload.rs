//! The JSON payload published for a sample.
use vstd::prelude::*;
use vstd::string::StringSliceAdditionalSpecFns;

use crate::sample::Sample;

verus! {

/// ASCII decimal digits of `n`, most significant first, without leading zeros.
pub open spec fn decimal(n: nat) -> Seq<u8>
    decreases n,
{
    if n < 10 {
        seq![(48 + n) as u8]
    } else {
        decimal(n / 10).push((48 + n % 10) as u8)
    }
}

/// Three ASCII digits of `r` (0 <= r < 1000), with leading zeros.
pub open spec fn three_digits(r: nat) -> Seq<u8> {
    seq![(48 + r / 100) as u8, (48 + (r / 10) % 10) as u8, (48 + r % 10) as u8]
}

pub open spec fn abs(v: int) -> nat {
    if v < 0 {
        (-v) as nat
    } else {
        v as nat
    }
}

/// A thousandths fixed-point value written as a JSON number with exactly
/// three decimals: `23456` is `23.456`, `-5` is `-0.005`.
pub open spec fn milli_text(v: int) -> Seq<u8> {
    (if v < 0 {
        seq![45u8]
    } else {
        Seq::<u8>::empty()
    }) + decimal(abs(v) / 1000) + seq![46u8] + three_digits(abs(v) % 1000)
}

/// `"key":` as bytes.
pub open spec fn json_key(key: Seq<u8>) -> Seq<u8> {
    seq![34u8] + key + seq![34u8, 58u8]
}

/// `,"key":value` for a present fixed-point reading, nothing for an absent one.
pub open spec fn milli_member(key: Seq<u8>, v: Option<i32>) -> Seq<u8> {
    match v {
        Some(x) => seq![44u8] + json_key(key) + milli_text(x as int),
        None => Seq::empty(),
    }
}

/// `,"key":value` for a present integer reading, nothing for an absent one.
pub open spec fn int_member(key: Seq<u8>, v: Option<u32>) -> Seq<u8> {
    match v {
        Some(x) => seq![44u8] + json_key(key) + decimal(x as nat),
        None => Seq::empty(),
    }
}

/// The JSON object published for a sample: the timestamp first, then each
/// present reading; absent readings are left out entirely.
pub open spec fn payload_of(s: Sample) -> Seq<u8> {
    seq![123u8] + json_key("ts".spec_bytes()) + decimal(s.timestamp as nat)
        + milli_member("temp_bme680".spec_bytes(), s.temperature)
        + milli_member("press_bme680".spec_bytes(), s.pressure)
        + milli_member("hum_bme680".spec_bytes(), s.humidity)
        + int_member("gas_ohm".spec_bytes(), s.gas_ohm)
        + int_member("aiq_score".spec_bytes(), s.aiq_score)
        + milli_member("lux_bh1750".spec_bytes(), s.lux_bh1750)
        + milli_member("lux_veml7700".spec_bytes(), s.lux_veml7700)
        + milli_member("temp_bmp390".spec_bytes(), s.temp_bmp390)
        + milli_member("press_bmp390".spec_bytes(), s.press_bmp390)
        + milli_member("hum_sht40".spec_bytes(), s.hum_sht40)
        + milli_member("temp_sht40".spec_bytes(), s.temp_sht40) + seq![125u8]
}

fn append_bytes(out: &mut Vec<u8>, bytes: &[u8])
    ensures
        final(out)@ == old(out)@ + bytes@,
{
    let mut i: usize = 0;
    while i < bytes.len()
        invariant
            i <= bytes@.len(),
            out@ == old(out)@ + bytes@.subrange(0, i as int),
        decreases bytes@.len() - i,
    {
        out.push(bytes[i]);
        i = i + 1;
        proof {
            assert(bytes@.subrange(0, i as int) =~= bytes@.subrange(0, i - 1).push(bytes@[i - 1]));
        }
    }
    assert(bytes@.subrange(0, bytes@.len() as int) =~= bytes@);
}

fn append_decimal(out: &mut Vec<u8>, n: u32)
    ensures
        final(out)@ == old(out)@ + decimal(n as nat),
    decreases n,
{
    if n >= 10 {
        append_decimal(out, n / 10);
    }
    out.push(48u8 + (n % 10) as u8);
    proof {
        if n >= 10 {
            assert(old(out)@ + decimal(n as nat) =~= old(out)@ + decimal((n / 10) as nat) + seq![
                (48 + n % 10) as u8,
            ]);
        } else {
            assert(old(out)@ + decimal(n as nat) =~= old(out)@.push((48 + n) as u8));
        }
    }
}

fn append_milli(out: &mut Vec<u8>, v: i32)
    ensures
        final(out)@ == old(out)@ + milli_text(v as int),
{
    let mag: u32 = if v < 0 {
        (0i64 - v as i64) as u32
    } else {
        v as u32
    };
    assert(mag as nat == abs(v as int));
    if v < 0 {
        out.push(45u8);
    }
    append_decimal(out, mag / 1000);
    out.push(46u8);
    let r = mag % 1000;
    out.push(48u8 + (r / 100) as u8);
    out.push(48u8 + ((r / 10) % 10) as u8);
    out.push(48u8 + (r % 10) as u8);
    assert(out@ =~= old(out)@ + milli_text(v as int));
}

fn append_key(out: &mut Vec<u8>, key: &str)
    ensures
        final(out)@ == old(out)@ + json_key(key.spec_bytes()),
{
    out.push(34u8);
    append_bytes(out, key.as_bytes());
    out.push(34u8);
    out.push(58u8);
    assert(out@ =~= old(out)@ + json_key(key.spec_bytes()));
}

fn append_milli_member(out: &mut Vec<u8>, key: &str, v: Option<i32>)
    ensures
        final(out)@ == old(out)@ + milli_member(key.spec_bytes(), v),
{
    match v {
        Some(x) => {
            out.push(44u8);
            append_key(out, key);
            append_milli(out, x);
            assert(out@ =~= old(out)@ + milli_member(key.spec_bytes(), v));
        },
        None => {
            assert(out@ =~= old(out)@ + milli_member(key.spec_bytes(), v));
        },
    }
}

fn append_int_member(out: &mut Vec<u8>, key: &str, v: Option<u32>)
    ensures
        final(out)@ == old(out)@ + int_member(key.spec_bytes(), v),
{
    match v {
        Some(x) => {
            out.push(44u8);
            append_key(out, key);
            append_decimal(out, x);
            assert(out@ =~= old(out)@ + int_member(key.spec_bytes(), v));
        },
        None => {
            assert(out@ =~= old(out)@ + int_member(key.spec_bytes(), v));
        },
    }
}

/// Encodes a sample as the flat JSON object that is published for it.
pub fn build_payload(sample: &Sample) -> (r: Vec<u8>)
    ensures
        r@ == payload_of(*sample),
{
    let mut out: Vec<u8> = Vec::new();
    out.push(123u8);
    append_key(&mut out, "ts");
    append_decimal(&mut out, sample.timestamp);
    append_milli_member(&mut out, "temp_bme680", sample.temperature);
    append_milli_member(&mut out, "press_bme680", sample.pressure);
    append_milli_member(&mut out, "hum_bme680", sample.humidity);
    append_int_member(&mut out, "gas_ohm", sample.gas_ohm);
    append_int_member(&mut out, "aiq_score", sample.aiq_score);
    append_milli_member(&mut out, "lux_bh1750", sample.lux_bh1750);
    append_milli_member(&mut out, "lux_veml7700", sample.lux_veml7700);
    append_milli_member(&mut out, "temp_bmp390", sample.temp_bmp390);
    append_milli_member(&mut out, "press_bmp390", sample.press_bmp390);
    append_milli_member(&mut out, "hum_sht40", sample.hum_sht40);
    append_milli_member(&mut out, "temp_sht40", sample.temp_sht40);
    out.push(125u8);
    assert(out@ =~= payload_of(*sample));
    out
}

} // verus!
