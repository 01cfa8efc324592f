/*
    internal and external temperature sensor

    temperatures are given in millidegrees Celsius (1 °C = 1000)
*/
use crate::emc2101::data_objects::{AveragingFilter, AveragingFilterMode, BetaCompensation};
use crate::emc2101::hw::{self, clamp, clamp_u8, last_read, read_op, write_op, DR};
use crate::traits::{op_value, BusOp, I2cBusDevice};
use vstd::arithmetic::div_mod::{lemma_div_by_multiple, lemma_fundamental_div_mod};
use vstd::prelude::*;

verus! {

/// the averaging filter's level, under the name the alert filter settings use
pub type AlertFilterMode = AveragingFilterMode;

// ------------------------------------------------------------------------
// temperature measurements - internal temperature sensor
// ------------------------------------------------------------------------

/// read the temperature measured by the internal sensor (in m°C)
/// - the sensor reports whole degrees
/// - the data sheet guarantees a precision of ±2°C
/// - expected range: 0°C to 85°C
pub fn get_internal_temperature<Ibd: I2cBusDevice>(ibd: &mut Ibd) -> (r: i32)
    ensures
        r % 1000 == 0,
        0 <= r <= 255_000,
        final(ibd).history() == old(ibd).history().push(read_op(DR::Its.addr(), (r / 1000) as u8)),
{
    (hw::get_internal_temperature(ibd) as i32) * 1000
}

/// read the "high temperature" alerting limit (in m°C)
/// - expected range: 0°C to 85°C
/// - default: 70°C
pub fn get_internal_temperature_high_limit<Ibd: I2cBusDevice>(ibd: &mut Ibd) -> (r: i32)
    ensures
        r % 1000 == 0,
        0 <= r <= 255_000,
        final(ibd).history() == old(ibd).history().push(
            read_op(DR::ItsHi.addr(), (r / 1000) as u8),
        ),
{
    (hw::get_internal_temperature_high_limit(ibd) as i32) * 1000
}

/// set the "high temperature" alerting limit (in m°C)
/// - accepted range: 0°C to 85°C; outside it nothing is written and the
///   result is false
/// - the fraction of a degree is truncated (not rounded)
pub fn set_internal_temperature_high_limit<Ibd: I2cBusDevice>(ibd: &mut Ibd, value: i32) -> (r:
    bool)
    ensures
        r == (0 <= value <= 85_000),
        final(ibd).history() == if r {
            old(ibd).history().push(write_op(DR::ItsHi.addr(), (value / 1000) as u8))
        } else {
            old(ibd).history()
        },
{
    if 0 <= value && value <= 85_000 {
        hw::set_internal_temperature_high_limit(ibd, (value / 1000) as u8)
    } else {
        false
    }
}

// ------------------------------------------------------------------------
// temperature measurements - external temperature sensor (diode)
// ------------------------------------------------------------------------

/// read the external sensor's beta compensation factor
pub fn get_ets_bcf<Ibd: I2cBusDevice>(ibd: &mut Ibd) -> (r: BetaCompensation)
    ensures
        ({
            let b = last_read(final(ibd).history());
            &&& final(ibd).history() == old(ibd).history().push(read_op(DR::EtsBcf.addr(), b))
            &&& r == BetaCompensation::decode(b)
        }),
{
    let byte = hw::get_ets_bcf(ibd);
    BetaCompensation::from(byte)
}

/// change the external sensor's beta compensation factor
pub fn set_ets_bcf<Ibd: I2cBusDevice>(ibd: &mut Ibd, bcf: BetaCompensation)
    ensures
        final(ibd).history() == old(ibd).history().push(write_op(DR::EtsBcf.addr(), bcf.encode())),
{
    hw::set_ets_bcf(ibd, u8::from(bcf));
}

/// read the external sensor's diode ideality factor
/// - the value represents a specific ideality factor
/// - expected range: 0x08 to 0x37
///
/// (see data sheet section 6.12 for details)
pub fn get_ets_dif<Ibd: I2cBusDevice>(ibd: &mut Ibd) -> (r: u8)
    ensures
        final(ibd).history() == old(ibd).history().push(read_op(DR::EtsDif.addr(), r)),
{
    hw::get_ets_dif(ibd)
}

/// change the external sensor's diode ideality factor
/// - the provided value is clamped to 0x08..=0x37
///
/// **CAUTION:** Do NOT read a temperature value immediately after setting
/// a new diode ideality factor: allow the chip about 100 milliseconds to
/// apply it.
///
/// (see data sheet section 6.12 for details)
pub fn set_ets_dif<Ibd: I2cBusDevice>(ibd: &mut Ibd, value: u8)
    ensures
        final(ibd).history() == old(ibd).history().push(
            write_op(DR::EtsDif.addr(), clamp_u8(value, 0x08, 0x37)),
        ),
{
    let value_clamped = clamp(value, 0x08, 0x37);
    hw::set_ets_dif(ibd, value_clamped);
}

/// read the external sensor's critical temperature threshold and
/// hysteresis (in °C), threshold first
/// - default: 85°C threshold, 10°C hysteresis
pub fn get_ets_critical_limit<Ibd: I2cBusDevice>(ibd: &mut Ibd) -> (r: (u8, u8))
    ensures
        final(ibd).history() == old(ibd).history() + seq![
            read_op(DR::CritTemp.addr(), r.0),
            read_op(DR::CritHyst.addr(), r.1),
        ],
{
    let threshold = hw::get_ets_tcrit_threshold(ibd);
    let hysteresis = hw::get_ets_tcrit_hysteresis(ibd);
    (threshold, hysteresis)
}

/// change the external sensor's critical temperature threshold and
/// hysteresis (in °C), threshold first
/// - both values are clamped to 0..=85
pub fn set_ets_critical_limit<Ibd: I2cBusDevice>(ibd: &mut Ibd, tcrit: (u8, u8))
    ensures
        final(ibd).history() == old(ibd).history() + seq![
            write_op(DR::CritTemp.addr(), clamp_u8(tcrit.0, 0, 85)),
            write_op(DR::CritHyst.addr(), clamp_u8(tcrit.1, 0, 85)),
        ],
{
    let threshold_clamped = clamp(tcrit.0, 0, 85);
    let hysteresis_clamped = clamp(tcrit.1, 0, 85);
    hw::set_ets_tcrit_threshold(ibd, threshold_clamped);
    hw::set_ets_tcrit_hysteresis(ibd, hysteresis_clamped);
}

/// The transactions of an external temperature read: the config register
/// holding `cfg`; when it shows standby mode, a one-shot conversion and a
/// 50 ms wait; then the temperature registers holding `msb` and `lsb`.
pub open spec fn external_read_ops(cfg: u8, msb: u8, lsb: u8) -> Seq<BusOp> {
    seq![read_op(DR::Cfg.addr(), cfg)] + (if cfg & 0b0100_0000 != 0 {
        seq![write_op(DR::OneShot.addr(), 0), BusOp::Sleep { ms: 50 }]
    } else {
        Seq::empty()
    }) + seq![read_op(DR::EtsMsb.addr(), msb), read_op(DR::EtsLsb.addr(), lsb)]
}

/// read the temperature measured by the external sensor (in m°C)
/// - the data sheet guarantees a precision of ±1°C
/// - if the device is in standby mode, a conversion is triggered first and
///   this function **sleeps** for 50 milliseconds
/// - a diode fault gives no value and names the fault
///
/// expected range: -64.0°C to 127.75°C
pub fn get_external_temperature<Ibd: I2cBusDevice>(ibd: &mut Ibd) -> (r: (
    Option<i32>,
    ExternalDiodeStatus,
))
    ensures
        ({
            let old_len = old(ibd).history().len() as int;
            let h = final(ibd).history();
            let cfg = op_value(h[old_len]);
            let msb = op_value(h[h.len() - 2]);
            let lsb = op_value(h[h.len() - 1]);
            &&& h == old(ibd).history() + external_read_ops(cfg, msb, lsb)
            &&& r == external_reading(msb, lsb)
        }),
{
    let ghost start = ibd.history();
    // the measurement registers are not continuously updated in standby
    // mode
    let cfg = hw::get_config_register(ibd);
    if cfg & 0b0100_0000 != 0 {
        hw::trigger_one_shot(ibd);
        // 32 conversions per second (31.25ms per conversion) is the
        // highest possible sample rate in continuous conversion mode
        ibd.sleep_ms(50u32);
    }
    let bytes = hw::get_external_temperature(ibd);
    proof {
        let h = ibd.history();
        assert(h =~= start + external_read_ops(cfg, bytes.0, bytes.1));
        assert(h[start.len() as int] == read_op(DR::Cfg.addr(), cfg));
    }
    convert_bytes2temperature(bytes)
}

/// override the temperature measured by the external sensor (in m°C)
/// (see section 6.8 and 6.16 for details)
/// - accepted range: 0°C to 85°C; outside it nothing is written and the
///   result is false
/// - the fraction of a degree is truncated (not rounded)
pub fn set_external_temperature_override<Ibd: I2cBusDevice>(ibd: &mut Ibd, value: i32) -> (r:
    bool)
    ensures
        r == (0 <= value <= 85_000),
        final(ibd).history() == if r {
            old(ibd).history().push(write_op(DR::EtsFrc.addr(), (value / 1000) as u8))
        } else {
            old(ibd).history()
        },
{
    if 0 <= value && value <= 85_000 {
        hw::set_external_temperature_override(ibd, (value / 1000) as u8);
        true
    } else {
        false
    }
}

/// read the "low temperature" alerting limit (in m°C)
/// - no value when the registers hold a diode fault pattern
pub fn get_external_temperature_low_limit<Ibd: I2cBusDevice>(ibd: &mut Ibd) -> (r: Option<i32>)
    ensures
        ({
            let h = final(ibd).history();
            let msb = op_value(h[h.len() - 2]);
            let lsb = op_value(h[h.len() - 1]);
            &&& h == old(ibd).history() + seq![
                read_op(DR::EtsLoMsb.addr(), msb),
                read_op(DR::EtsLoLsb.addr(), lsb),
            ]
            &&& r == external_reading(msb, lsb).0
        }),
{
    let bytes = hw::get_external_temperature_low_limit(ibd);
    convert_bytes2temperature(bytes).0
}

/// The limit value `value` clamped to 0°C..=85°C.
pub open spec fn limit_clamp(value: i32) -> i32 {
    if value < 0 {
        0
    } else if value > 85_000 {
        85_000
    } else {
        value
    }
}

/// change the "low temperature" alerting limit (in m°C)
/// - the value is clamped to 0°C..=85°C and rounded down to a 0.125°C step
/// - the stored limit is returned
///
/// default: 0°C
pub fn set_external_temperature_low_limit<Ibd: I2cBusDevice>(ibd: &mut Ibd, value: i32) -> (r:
    i32)
    ensures
        ({
            let bytes = external_bytes(limit_clamp(value));
            &&& final(ibd).history() == old(ibd).history() + seq![
                write_op(DR::EtsLoMsb.addr(), bytes.0),
                write_op(DR::EtsLoLsb.addr(), bytes.1),
            ]
            &&& r == external_temperature(bytes.0, bytes.1)
        }),
{
    let bytes = limit_bytes(value);
    hw::set_external_temperature_low_limit(ibd, bytes);
    limit_temperature(bytes)
}

/// read the "high temperature" alerting limit (in m°C)
/// - no value when the registers hold a diode fault pattern
pub fn get_external_temperature_high_limit<Ibd: I2cBusDevice>(ibd: &mut Ibd) -> (r: Option<i32>)
    ensures
        ({
            let h = final(ibd).history();
            let msb = op_value(h[h.len() - 2]);
            let lsb = op_value(h[h.len() - 1]);
            &&& h == old(ibd).history() + seq![
                read_op(DR::EtsHiMsb.addr(), msb),
                read_op(DR::EtsHiLsb.addr(), lsb),
            ]
            &&& r == external_reading(msb, lsb).0
        }),
{
    let bytes = hw::get_external_temperature_high_limit(ibd);
    convert_bytes2temperature(bytes).0
}

/// change the "high temperature" alerting limit (in m°C)
/// - the value is clamped to 0°C..=85°C and rounded down to a 0.125°C step
/// - the stored limit is returned
///
/// default: 70°C
pub fn set_external_temperature_high_limit<Ibd: I2cBusDevice>(ibd: &mut Ibd, value: i32) -> (r:
    i32)
    ensures
        ({
            let bytes = external_bytes(limit_clamp(value));
            &&& final(ibd).history() == old(ibd).history() + seq![
                write_op(DR::EtsHiMsb.addr(), bytes.0),
                write_op(DR::EtsHiLsb.addr(), bytes.1),
            ]
            &&& r == external_temperature(bytes.0, bytes.1)
        }),
{
    let bytes = limit_bytes(value);
    hw::set_external_temperature_high_limit(ibd, bytes);
    limit_temperature(bytes)
}

/// the register pair of an alerting limit
fn limit_bytes(value: i32) -> (r: (u8, u8))
    ensures
        r == external_bytes(limit_clamp(value)),
        r.0 <= 85,
{
    let value_clamped = if value < 0 {
        0
    } else if value > 85_000 {
        85_000
    } else {
        value
    };
    convert_temperature2bytes(value_clamped)
}

/// the temperature of an alerting limit's register pair
fn limit_temperature(bytes: (u8, u8)) -> (r: i32)
    requires
        bytes.0 <= 85,
    ensures
        r == external_temperature(bytes.0, bytes.1),
{
    let whole = bytes.0 as i32;
    whole * 1000 + ((bytes.1 / 32) as i32) * 125
}

/// get the level of digital averaging used for the external diode
/// temperature measurements
pub fn get_ets_averaging_filter<Ibd: I2cBusDevice>(ibd: &mut Ibd) -> (r: AveragingFilter)
    ensures
        ({
            let b = last_read(final(ibd).history());
            &&& final(ibd).history() == old(ibd).history().push(read_op(DR::AvgFlt.addr(), b))
            &&& r == AveragingFilter::decode(b)
        }),
{
    let byte = hw::get_ets_averaging_filter(ibd);
    AveragingFilter::from(byte)
}

/// set the level of digital averaging used for the external diode
/// temperature measurements
pub fn set_ets_averaging_filter<Ibd: I2cBusDevice>(ibd: &mut Ibd, af: AveragingFilter)
    ensures
        final(ibd).history() == old(ibd).history().push(
            write_op(DR::AvgFlt.addr(), af.encode()),
        ),
{
    hw::set_ets_averaging_filter(ibd, u8::from(af));
}

// ------------------------------------------------------------------------
// temperature <-> [msb, lsb]
// ------------------------------------------------------------------------
// - expected range: -64.0°C to 127.75°C
// - external temperatures are graduated in 0.125°C steps: whole degrees as
//   a two's-complement msb, eighths of a degree in the top 3 bits of lsb
/// state of the external diode, as told by the temperature registers
#[derive(Clone, Copy, Debug, PartialEq, Eq)]
pub enum ExternalDiodeStatus {
    Operational,
    OpenCircuit,
    ShortCircuit,
}

/// `b` read as a two's-complement number.
pub open spec fn signed(b: u8) -> int {
    if b >= 128 {
        b as int - 256
    } else {
        b as int
    }
}

/// The diode state that the pair (msb, lsb) reports: (0x7F, 0x00) means an
/// open circuit, (0x7F, 0xE0) a short circuit (data sheet section 5.5.1).
pub open spec fn diode_status(msb: u8, lsb: u8) -> ExternalDiodeStatus {
    if msb == 0x7F && lsb == 0b0000_0000 {
        ExternalDiodeStatus::OpenCircuit
    } else if msb == 0x7F && lsb == 0b1110_0000 {
        ExternalDiodeStatus::ShortCircuit
    } else {
        ExternalDiodeStatus::Operational
    }
}

/// The temperature (in m°C) of the pair (msb, lsb): msb signed whole
/// degrees plus the top 3 bits of lsb in 0.125°C steps.
pub open spec fn external_temperature(msb: u8, lsb: u8) -> int {
    signed(msb) * 1000 + (lsb / 32) as int * 125
}

/// What the pair (msb, lsb) reads as: a temperature and the diode state,
/// with no temperature when the state is a fault.
pub open spec fn external_reading(msb: u8, lsb: u8) -> (Option<i32>, ExternalDiodeStatus) {
    let status = diode_status(msb, lsb);
    if status == ExternalDiodeStatus::Operational {
        (Some(external_temperature(msb, lsb) as i32), status)
    } else {
        (None, status)
    }
}

/// The pair (msb, lsb) for `value` (in m°C): the value is clamped to
/// -64°C..=127.75°C and rounded down to a 0.125°C step. A result equal to
/// the open-circuit pattern (127.0°C) is moved to the next step up.
pub open spec fn external_bytes(value: i32) -> (u8, u8) {
    let c: int = if value < -64_000 {
        -64_000
    } else if value > 127_750 {
        127_750
    } else {
        value as int
    };
    // 0.125°C steps above -64°C
    let steps = (c + 64_000) / 125;
    let whole = steps / 8 - 64;
    let msb: u8 = if whole < 0 {
        (whole + 256) as u8
    } else {
        whole as u8
    };
    let lsb: u8 = ((steps % 8) * 32) as u8;
    if msb == 0x7F && lsb == 0 {
        (0x7F, 0b0010_0000)
    } else {
        (msb, lsb)
    }
}

/// `value` (in m°C) clamped to the codec's range, -64°C..=127.75°C.
pub open spec fn temperature_clamp(value: i32) -> int {
    if value < -64_000 {
        -64_000
    } else if value > 127_750 {
        127_750
    } else {
        value as int
    }
}

/// What the encoding of `value` stands for: a pair that reports no fault,
/// with the low 5 bits of lsb clear, whose temperature is the 0.125°C step
/// at or just below the clamped value; only where that step is 127.0°C (the
/// open-circuit pattern) it is the next step up, 127.125°C.
pub proof fn lemma_external_bytes_step(value: i32)
    ensures
        ({
            let (msb, lsb) = external_bytes(value);
            let c = temperature_clamp(value);
            let t = external_temperature(msb, lsb);
            &&& lsb % 32 == 0
            &&& signed(msb) >= -64
            &&& diode_status(msb, lsb) == ExternalDiodeStatus::Operational
            &&& if 127_000 <= c < 127_125 {
                t == 127_125
            } else {
                c - 125 < t <= c
            }
        }),
{
    let c = temperature_clamp(value);
    let steps = (c + 64_000) / 125;
    lemma_fundamental_div_mod(c + 64_000, 125);
    lemma_fundamental_div_mod(steps, 8);
    assert(0 <= steps <= 1534);
    let whole = steps / 8 - 64;
    let k = steps % 8;
    assert(-64 <= whole <= 127 && 0 <= k < 8);
    let msb: u8 = if whole < 0 { (whole + 256) as u8 } else { whole as u8 };
    assert(signed(msb) == whole);
    assert(whole * 1000 + k * 125 == 125 * steps - 64_000);
}

/// convert the provided temperature from internal value to m°C
/// e.g.: [0x0D, 0b1110_0000] -> 13_875 (13 + 7 * 0.125)
pub fn convert_bytes2temperature(bytes: (u8, u8)) -> (r: (Option<i32>, ExternalDiodeStatus))
    ensures
        r == external_reading(bytes.0, bytes.1),
{
    let msb = bytes.0;
    let lsb = bytes.1;

    // test for external sensor error (data sheet section 5.5.1)
    if msb == 0x7F {
        if lsb == 0b0000_0000 {
            return (None, ExternalDiodeStatus::OpenCircuit);
        } else if lsb == 0b1110_0000 {
            return (None, ExternalDiodeStatus::ShortCircuit);
        }
    }
    let whole: i32 = if msb >= 128 {
        msb as i32 - 256
    } else {
        msb as i32
    };
    let temp = whole * 1000 + ((lsb / 32) as i32) * 125;
    (Some(temp), ExternalDiodeStatus::Operational)
}

/// convert the provided temperature from m°C to internal value
/// e.g.: 13_875 (13 + 7 * 0.125) -> [0x0D, 0b1110_0000]
///
/// the internal representation has limited granularity, temperatures are
/// graduated in 0.125°C steps
pub fn convert_temperature2bytes(value: i32) -> (r: (u8, u8))
    ensures
        r == external_bytes(value),
{
    let value_clamped: i32 = if value < -64_000 {
        -64_000
    } else if value > 127_750 {
        127_750
    } else {
        value
    };
    let steps: i32 = (value_clamped + 64_000) / 125;
    let whole: i32 = steps / 8 - 64;
    let msb: u8 = if whole < 0 {
        (whole + 256) as u8
    } else {
        whole as u8
    };
    let lsb: u8 = ((steps % 8) * 32) as u8;
    if msb == 0x7F && lsb == 0b0000_0000 {
        // avoid this value (indicating 'diode fault: open circuit')
        (msb, 0b0010_0000)
    } else {
        (msb, lsb)
    }
}

/// Every pair that the codec can produce and that reports no fault comes
/// back unchanged from a decode followed by an encode: whole degrees from
/// -64 up, the low 5 bits of lsb clear.
pub proof fn lemma_external_temperature_round_trip(msb: u8, lsb: u8)
    requires
        signed(msb) >= -64,
        lsb % 32 == 0,
        diode_status(msb, lsb) == ExternalDiodeStatus::Operational,
    ensures
        external_reading(msb, lsb).0 == Some(external_temperature(msb, lsb) as i32),
        external_bytes(external_temperature(msb, lsb) as i32) == (msb, lsb),
{
    let k: int = (lsb / 32) as int;
    let a: int = signed(msb) + 64;
    let t: int = external_temperature(msb, lsb);
    assert(0 <= k < 8);
    assert(-64_000 <= t <= 127_750);
    let q: int = a * 8 + k;
    assert(t + 64_000 == q * 125);
    lemma_div_by_multiple(q, 125);
    assert(q / 8 == a && q % 8 == k) by (nonlinear_arith)
        requires
            q == a * 8 + k,
            0 <= k < 8,
            0 <= a,
    ;
    assert(lsb == k * 32);
}

} // verus!
