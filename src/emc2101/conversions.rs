//
// helper functions to convert values to their internal representation
//
use crate::emc2101::data_objects::flag;
use vstd::arithmetic::div_mod::{
    lemma_div_is_ordered_by_denominator, lemma_fundamental_div_mod, lemma_mod_pos_bound,
};
use vstd::prelude::*;

verus! {

// ------------------------------------------------------------------------
// rpm <-> tach reading
// ------------------------------------------------------------------------
/// defined in data sheet (section 6.14)
pub const TACH_DIV: u32 = 5_400_000;

/// the smallest RPM value whose tach reading fits in 16 bits
pub const RPM_MIN: u32 = TACH_DIV / 65535 + 1;

/// The tach reading for `rpm`: the divisor over `rpm`, where `rpm` is first
/// raised to `RPM_MIN`.
pub open spec fn rpm_to_tach(rpm: u32) -> int {
    TACH_DIV as int / (if rpm < RPM_MIN { RPM_MIN } else { rpm }) as int
}

/// The RPM value for the tach reading `tach`: the divisor over `tach`, where
/// a reading of zero counts as one.
pub open spec fn tach_to_rpm(tach: u16) -> int {
    TACH_DIV as int / (if tach < 1 { 1 } else { tach }) as int
}

/// convert RPM value into tach reading
/// - values below `RPM_MIN` are clamped to it
pub fn convert_rpm2tach(rpm: u32) -> (r: u16)
    ensures
        r as int == rpm_to_tach(rpm),
{
    let rpm_clamped = if rpm < RPM_MIN {
        RPM_MIN
    } else {
        rpm
    };
    proof {
        assert(RPM_MIN == 83);
        assert(5_400_000int / 83 == 65060);
        lemma_div_is_ordered_by_denominator(TACH_DIV as int, RPM_MIN as int, rpm_clamped as int);
    }
    (TACH_DIV / rpm_clamped) as u16
}

/// convert tach reading to RPM value
/// - a reading of zero is taken as one
pub fn convert_tach2rpm(tach: u16) -> (r: u32)
    ensures
        r as int == tach_to_rpm(tach),
{
    let tach_clamped = if tach < 1 {
        1
    } else {
        tach
    };
    TACH_DIV / (tach_clamped as u32)
}

/// Whether the RPM value `rpm` comes back within one unit from a round
/// trip through its tach reading.
pub open spec fn rpm_round_trip_close(rpm: u32) -> bool {
    rpm - 1 <= tach_to_rpm(rpm_to_tach(rpm) as u16) <= rpm + 1
}

/// Converting an RPM value to a tach reading and back gives it back within
/// one unit, from the smallest RPM value the chip represents (82) up to 3285,
/// where twice the tach reading still exceeds the RPM value.
///
/// (Further up the reciprocal of a truncated reciprocal drifts: 3319 comes
/// back as 3321, 100_001 as 101_886.)
pub proof fn lemma_rpm_round_trip(rpm: u32)
    requires
        82 <= rpm <= 3285,
    ensures
        rpm_round_trip_close(rpm),
{
    let d: int = TACH_DIV as int;
    if rpm < RPM_MIN {
        assert(5_400_000int / 83 == 65060);
        assert(rpm_to_tach(rpm) == 65060);
        assert(5_400_000int / 65060 == 83);
        assert(tach_to_rpm(65060) == 83);
    } else {
        let r: int = rpm as int;
        let t: int = d / r;
        lemma_fundamental_div_mod(d, r);
        lemma_mod_pos_bound(d, r);
        assert(t >= 1) by {
            lemma_div_is_ordered_by_denominator(d, r, 3285);
        }
        assert(t <= 65060) by {
            assert(5_400_000int / 83 == 65060);
            lemma_div_is_ordered_by_denominator(d, 83, r);
        }
        assert(rpm_to_tach(rpm) == t);
        let back: int = d / t;
        lemma_fundamental_div_mod(d, t);
        lemma_mod_pos_bound(d, t);
        assert(tach_to_rpm(t as u16) == back);
        // r * t <= d, so r <= d / t
        assert(r <= back) by (nonlinear_arith)
            requires
                r * t <= d,
                d == t * back + d % t,
                0 <= d % t < t,
                t >= 1,
        ;
        // d - r * t < r <= 2 * t, so d < (r + 2) * t
        assert(r < 2 * t) by (nonlinear_arith)
            requires
                d == r * t + d % r,
                0 <= d % r < r,
                83 <= r <= 3285,
                d == 5_400_000,
        ;
        assert(back <= r + 1) by (nonlinear_arith)
            requires
                d == r * t + d % r,
                0 <= d % r < r,
                r < 2 * t,
                d == t * back + d % t,
                0 <= d % t < t,
                t >= 1,
        ;
    }
}

// ------------------------------------------------------------------------
// temperature <-> [msb, lsb], legacy coarse scheme
// ------------------------------------------------------------------------
// temperatures are given in millidegrees Celsius (1 °C = 1000)
//
// the internal representation has limited granularity, representable
// fractions are sums of 0.50, 0.25 and 0.15: 0.15, 0.25, 0.40, 0.50, 0.65,
// 0.75, 0.90
/// The temperature (in m°C) of the register pair [msb, lsb]: whole degrees
/// in msb, and bits 7, 6, 5 of lsb adding 0.50, 0.25 and 0.15 °C.
pub open spec fn legacy_temperature(msb: u8, lsb: u8) -> int {
    msb as int * 1000 + (if lsb & 0b1000_0000 != 0 { 500int } else { 0 }) + (if lsb & 0b0100_0000
        != 0 {
        250int
    } else {
        0
    }) + (if lsb & 0b0010_0000 != 0 { 150int } else { 0 })
}

/// The register pair for `value` (in m°C): whole degrees (at most 255) in
/// msb; the fraction rounded by the cascade ">0.44 takes 0.50, then >0.19
/// takes 0.25, then >0.07 sets 0.15" into the top bits of lsb.
pub open spec fn legacy_bytes(value: u32) -> [u8; 2] {
    let whole = value / 1000;
    let msb: u8 = if whole > 255 { 255 } else { whole as u8 };
    let f0: int = (value % 1000) as int;
    let half = f0 > 440;
    let f1 = if half { f0 - 500 } else { f0 };
    let quarter = f1 > 190;
    let f2 = if quarter { f1 - 250 } else { f1 };
    let tenths = f2 > 70;
    [msb, flag(half, 0b1000_0000) | flag(quarter, 0b0100_0000) | flag(tenths, 0b0010_0000)]
}

/// convert the provided temperature from internal value to m°C
/// e.g.: [0x0D, 0b1110_0000] -> 13_900 (13 + 0.50 + 0.25 + 0.15)
pub fn convert_bytes2temperature(bytes: [u8; 2]) -> (r: u32)
    ensures
        r as int == legacy_temperature(bytes@[0], bytes@[1]),
{
    let msb = bytes[0];
    let lsb = bytes[1];

    let mut temp: u32 = (msb as u32) * 1000;
    if (lsb & 0b1000_0000) != 0 {
        temp += 500;
    }
    if (lsb & 0b0100_0000) != 0 {
        temp += 250;
    }
    if (lsb & 0b0010_0000) != 0 {
        temp += 150;
    }
    temp
}

/// convert the provided temperature from m°C to internal value
/// e.g.: 13_950 -> [0x0D (13), 0b1110_0000 (0.5 + 0.25 + 0.15)]
///
/// the internal value has limited granularity, any remaining fraction is
/// lost; whole degrees above 255 are saturated
pub fn convert_temperature2bytes(value: u32) -> (r: [u8; 2])
    ensures
        r@ == legacy_bytes(value)@,
{
    let whole = value / 1000;
    let msb: u8 = if whole > 255 {
        255
    } else {
        whole as u8
    };

    // use slightly lower values than the midpoints, e.g. "0.45" rounds up
    // to 0.5 instead of down to 0.4 (0.25 + 0.15)
    let mut fraction: i32 = (value % 1000) as i32;
    let half = fraction > 440;
    if half {
        fraction -= 500;
    }
    let quarter = fraction > 190;
    if quarter {
        fraction -= 250;
    }
    let tenths = fraction > 70;
    let lsb = flag_bits_of(half, quarter, tenths);
    [msb, lsb]
}

/// the fraction bits of the legacy scheme
fn flag_bits_of(half: bool, quarter: bool, tenths: bool) -> (r: u8)
    ensures
        r == flag(half, 0b1000_0000) | flag(quarter, 0b0100_0000) | flag(tenths, 0b0010_0000),
{
    crate::emc2101::data_objects::flag_bits(half, 0b1000_0000)
        | crate::emc2101::data_objects::flag_bits(quarter, 0b0100_0000)
        | crate::emc2101::data_objects::flag_bits(tenths, 0b0010_0000)
}

} // verus!
