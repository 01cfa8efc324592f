/*
    raw, low-level access (as implemented by hardware)
*/
pub mod defaults;
mod device_registers;

pub use device_registers::DR;

use crate::traits::{
    lemma_reads_stored_prefix, op_value, read_values, reads_stored, register_reads, register_writes,
    registers_after, BusOp, I2cBusDevice,
};
use defaults::{lemma_defaults_distinct, DEFAULTS};
use vstd::prelude::*;

verus! {

// ------------------------------------------------------------------------
// constants and the shape of the chip's bus traffic
// ------------------------------------------------------------------------

/// the device's I²C bus address is always 0x4C
///
/// (a bus multiplexer is needed to connect several of these chips to one bus)
pub const DEVICE_ADDRESS: u8 = 0x4C;

/// A read of the chip's register `dr` that returned `value`.
pub open spec fn read_op(dr: u8, value: u8) -> BusOp {
    BusOp::ReadRegister { da: DEVICE_ADDRESS, dr, value }
}

/// A write of `value` to the chip's register `dr`.
pub open spec fn write_op(dr: u8, value: u8) -> BusOp {
    BusOp::WriteRegister { da: DEVICE_ADDRESS, dr, value }
}

/// The register value read last in `h`.
pub open spec fn last_read(h: Seq<BusOp>) -> u8 {
    op_value(h.last())
}

/// The 16 bit value with low byte `lo` and high byte `hi`.
pub open spec fn le_u16(lo: u8, hi: u8) -> u16 {
    (hi as int * 256 + lo as int) as u16
}

/// `v` limited to the range `lo..=hi`.
pub open spec fn clamp_u8(v: u8, lo: u8, hi: u8) -> u8 {
    if v < lo {
        lo
    } else if v > hi {
        hi
    } else {
        v
    }
}

/// `v` limited to the range `lo..=hi`.
pub fn clamp(v: u8, lo: u8, hi: u8) -> (r: u8)
    requires
        lo <= hi,
    ensures
        r == clamp_u8(v, lo, hi),
{
    if v < lo {
        lo
    } else if v > hi {
        hi
    } else {
        v
    }
}

/// The low byte of `v`.
pub open spec fn lo_byte(v: u16) -> u8 {
    (v % 256) as u8
}

/// The high byte of `v`.
pub open spec fn hi_byte(v: u16) -> u8 {
    (v / 256) as u8
}

/// The writes that put every default value in place, in table order.
pub open spec fn default_writes() -> Seq<BusOp> {
    register_writes(DEVICE_ADDRESS, DEFAULTS@)
}

/// The reads of the first `values.len()` registers of the default table, in
/// table order, that returned `values`.
pub open spec fn default_reads(values: Seq<u8>) -> Seq<BusOp> {
    Seq::new(values.len(), |i: int| read_op(DEFAULTS@[i]@[0], values[i]))
}

/// Whether `values` holds the default value of each register of the
/// default table, in table order.
pub open spec fn holds_defaults(values: Seq<u8>) -> bool {
    &&& values.len() == DEFAULTS@.len()
    &&& forall|i: int| 0 <= i < DEFAULTS@.len() ==> values[i] == DEFAULTS@[i]@[1]
}

/// Register address of the temperature of lookup table entry `i`.
pub open spec fn lut_temp_reg(i: int) -> u8 {
    (0x50 + 2 * i) as u8
}

/// Register address of the fan speed of lookup table entry `i`.
pub open spec fn lut_speed_reg(i: int) -> u8 {
    (0x51 + 2 * i) as u8
}

/// The reads of the first `lut.len()` lookup table entries, in register
/// order, that returned `lut`.
pub open spec fn lut_reads(lut: Seq<(u8, u8)>) -> Seq<BusOp>
    decreases lut.len(),
{
    if lut.len() == 0 {
        Seq::empty()
    } else {
        let i = lut.len() - 1;
        lut_reads(lut.drop_last()) + seq![read_op(lut_temp_reg(i), lut[i].0), read_op(lut_speed_reg(i), lut[i].1)]
    }
}

/// The writes of the first `lut.len()` lookup table entries, in register
/// order.
pub open spec fn lut_writes(lut: Seq<(u8, u8)>) -> Seq<BusOp>
    decreases lut.len(),
{
    if lut.len() == 0 {
        Seq::empty()
    } else {
        let i = lut.len() - 1;
        lut_writes(lut.drop_last()) + seq![write_op(lut_temp_reg(i), lut[i].0), write_op(lut_speed_reg(i), lut[i].1)]
    }
}

// ------------------------------------------------------------------------
// hardware details
// ------------------------------------------------------------------------

/// read the manufacturer ID
///
/// expected values:
/// - 0x5d for SMSC
pub fn get_manufacturer_id<Ibd: I2cBusDevice>(ibd: &mut Ibd) -> (r: u8)
    ensures
        final(ibd).history() == old(ibd).history().push(read_op(DR::Mid.addr(), r)),
{
    ibd.read_register_as_byte(DEVICE_ADDRESS, DR::Mid.addr())
}

/// read the product ID
///
/// expected values:
/// - 0x16 for EMC2101
/// - 0x28 for EMC2101-R
pub fn get_product_id<Ibd: I2cBusDevice>(ibd: &mut Ibd) -> (r: u8)
    ensures
        final(ibd).history() == old(ibd).history().push(read_op(DR::Pid.addr(), r)),
{
    ibd.read_register_as_byte(DEVICE_ADDRESS, DR::Pid.addr())
}

/// read the product's revision
///
/// expected values:
/// - 0x01
pub fn get_product_revision<Ibd: I2cBusDevice>(ibd: &mut Ibd) -> (r: u8)
    ensures
        final(ibd).history() == old(ibd).history().push(read_op(DR::Rev.addr(), r)),
{
    ibd.read_register_as_byte(DEVICE_ADDRESS, DR::Rev.addr())
}

/// reset all R/W registers to their default values
/// (one write per entry of the default table, in table order)
pub fn reset_device_registers<Ibd: I2cBusDevice>(ibd: &mut Ibd)
    ensures
        final(ibd).history() == old(ibd).history() + default_writes(),
{
    let ghost start = ibd.history();
    let mut i: usize = 0;
    while i < 41
        invariant
            0 <= i <= 41,
            ibd.history() == start + register_writes(DEVICE_ADDRESS, DEFAULTS@.take(i as int)),
        decreases 41 - i,
    {
        let register = DEFAULTS[i][0];
        let default = DEFAULTS[i][1];
        ibd.write_register_as_byte(DEVICE_ADDRESS, register, default);
        proof {
            assert(register_writes(DEVICE_ADDRESS, DEFAULTS@.take(i + 1)) =~= register_writes(
                DEVICE_ADDRESS,
                DEFAULTS@.take(i as int),
            ).push(write_op(register, default)));
        }
        i += 1;
    }
    proof {
        assert(DEFAULTS@.take(41) =~= DEFAULTS@);
    }
}

/// validate that the R/W registers are set to their default values
/// (this function can be used to verify the hardware is working)
///
/// every register of the default table is read once, in table order; the
/// result tells whether each held its default value
pub fn validate_device_registers<Ibd: I2cBusDevice>(ibd: &mut Ibd) -> (r: bool)
    ensures
        ({
            let values = read_values(final(ibd).history().skip(old(ibd).history().len() as int));
            &&& values.len() == DEFAULTS@.len()
            &&& final(ibd).history() == old(ibd).history() + default_reads(values)
            &&& r == holds_defaults(values)
        }),
{
    let ghost start = ibd.history();
    let ghost values: Seq<u8> = Seq::empty();
    let mut is_ok = true;
    let mut i: usize = 0;
    while i < 41
        invariant
            0 <= i <= 41,
            values.len() == i,
            ibd.history() == start + default_reads(values),
            is_ok == (forall|j: int| 0 <= j < i ==> values[j] == DEFAULTS@[j]@[1]),
        decreases 41 - i,
    {
        let register = DEFAULTS[i][0];
        let default = DEFAULTS[i][1];
        let value = ibd.read_register_as_byte(DEVICE_ADDRESS, register);
        if default != value {
            is_ok = false;
        }
        proof {
            let prev = values;
            values = values.push(value);
            assert(default_reads(values) =~= default_reads(prev).push(read_op(register, value)));
            assert(is_ok == (forall|j: int| 0 <= j < i + 1 ==> values[j] == DEFAULTS@[j]@[1])) by {
                if is_ok {
                    assert forall|j: int| 0 <= j < i + 1 implies values[j] == DEFAULTS@[j]@[1] by {
                        if j < i {
                            assert(values[j] == prev[j]);
                        }
                    }
                } else if default != value {
                    assert(values[i as int] != DEFAULTS@[i as int]@[1]);
                } else {
                    let j = choose|j: int| 0 <= j < i && !(prev[j] == DEFAULTS@[j]@[1]);
                    assert(values[j] == prev[j]);
                }
            }
        }
        i += 1;
    }
    proof {
        let appended = ibd.history().skip(start.len() as int);
        assert(appended =~= default_reads(values));
        assert(read_values(appended) =~= values);
    }
    is_ok
}

/// On a device whose registers hold what was last written to them, a
/// validation that follows a reset reads every default value back, whatever
/// the registers held before: the validation reports true.
pub proof fn lemma_reset_then_validate(init: spec_fn(u8) -> u8, values: Seq<u8>)
    requires
        values.len() == DEFAULTS@.len(),
        reads_stored(DEVICE_ADDRESS, init, default_writes() + default_reads(values)),
    ensures
        holds_defaults(values),
{
    let w = default_writes();
    let ops = w + default_reads(values);
    assert(DEFAULTS@.take(41) =~= DEFAULTS@);
    assert forall|i: int| 0 <= i < DEFAULTS@.len() implies values[i] == DEFAULTS@[i]@[1] by {
        lemma_reads_stored_prefix(DEVICE_ADDRESS, init, ops, w.len() + i + 1);
        let pre = ops.take(w.len() + i + 1);
        assert(pre.drop_last() =~= w + default_reads(values.take(i)));
        assert(pre.last() == read_op(DEFAULTS@[i]@[0], values[i]));
        lemma_reads_keep_registers(init, w, values.take(i), DEFAULTS@[i]@[0]);
        lemma_default_writes_store(init, 41, i);
    }
}

/// The default writes of the first `k` table entries leave the register of
/// each of those entries holding its default value.
proof fn lemma_default_writes_store(init: spec_fn(u8) -> u8, k: int, j: int)
    requires
        0 <= j < k <= 41,
    ensures
        registers_after(DEVICE_ADDRESS, init, register_writes(DEVICE_ADDRESS, DEFAULTS@.take(k)))(
            DEFAULTS@[j]@[0],
        ) == DEFAULTS@[j]@[1],
    decreases k,
{
    let ops = register_writes(DEVICE_ADDRESS, DEFAULTS@.take(k));
    assert(ops.drop_last() =~= register_writes(DEVICE_ADDRESS, DEFAULTS@.take(k - 1)));
    assert(ops.last() == write_op(DEFAULTS@[k - 1]@[0], DEFAULTS@[k - 1]@[1]));
    if j < k - 1 {
        lemma_default_writes_store(init, k - 1, j);
        lemma_defaults_distinct(j, k - 1);
    }
}

/// Register reads leave the registers as they are.
proof fn lemma_reads_keep_registers(init: spec_fn(u8) -> u8, w: Seq<BusOp>, values: Seq<u8>, a: u8)
    requires
        values.len() <= DEFAULTS@.len(),
    ensures
        registers_after(DEVICE_ADDRESS, init, w + default_reads(values))(a) == registers_after(
            DEVICE_ADDRESS,
            init,
            w,
        )(a),
    decreases values.len(),
{
    if values.len() > 0 {
        let ops = w + default_reads(values);
        assert(ops.drop_last() =~= w + default_reads(values.drop_last()));
        lemma_reads_keep_registers(init, w, values.drop_last(), a);
    } else {
        assert(w + default_reads(values) =~= w);
    }
}

/// get the device's status register
///
/// default: 0b0000_0000
pub fn get_status_register<Ibd: I2cBusDevice>(ibd: &mut Ibd) -> (r: u8)
    ensures
        final(ibd).history() == old(ibd).history().push(read_op(DR::Status.addr(), r)),
{
    ibd.read_register_as_byte(DEVICE_ADDRESS, DR::Status.addr())
}

/// read scratch register #1
pub fn get_scratch_register1<Ibd: I2cBusDevice>(ibd: &mut Ibd) -> (r: u8)
    ensures
        final(ibd).history() == old(ibd).history().push(read_op(DR::Scratch1.addr(), r)),
{
    ibd.read_register_as_byte(DEVICE_ADDRESS, DR::Scratch1.addr())
}

/// change scratch register #1
pub fn set_scratch_register1<Ibd: I2cBusDevice>(ibd: &mut Ibd, value: u8)
    ensures
        final(ibd).history() == old(ibd).history().push(write_op(DR::Scratch1.addr(), value)),
{
    ibd.write_register_as_byte(DEVICE_ADDRESS, DR::Scratch1.addr(), value);
}

/// read scratch register #2
pub fn get_scratch_register2<Ibd: I2cBusDevice>(ibd: &mut Ibd) -> (r: u8)
    ensures
        final(ibd).history() == old(ibd).history().push(read_op(DR::Scratch2.addr(), r)),
{
    ibd.read_register_as_byte(DEVICE_ADDRESS, DR::Scratch2.addr())
}

/// change scratch register #2
pub fn set_scratch_register2<Ibd: I2cBusDevice>(ibd: &mut Ibd, value: u8)
    ensures
        final(ibd).history() == old(ibd).history().push(write_op(DR::Scratch2.addr(), value)),
{
    ibd.write_register_as_byte(DEVICE_ADDRESS, DR::Scratch2.addr(), value);
}

// ------------------------------------------------------------------------
// fan speed control
// ------------------------------------------------------------------------

/// get the device's config register
///
/// default: 0b0000_0000
pub fn get_config_register<Ibd: I2cBusDevice>(ibd: &mut Ibd) -> (r: u8)
    ensures
        final(ibd).history() == old(ibd).history().push(read_op(DR::Cfg.addr(), r)),
{
    ibd.read_register_as_byte(DEVICE_ADDRESS, DR::Cfg.addr())
}

/// set the device's config register
///
/// default: 0b0000_0000
pub fn set_config_register<Ibd: I2cBusDevice>(ibd: &mut Ibd, byte: u8)
    ensures
        final(ibd).history() == old(ibd).history().push(write_op(DR::Cfg.addr(), byte)),
{
    ibd.write_register_as_byte(DEVICE_ADDRESS, DR::Cfg.addr(), byte);
}

/// read the fan's current speed (expressed as "tach reading")
/// - the low byte is read first: reading it latches the high byte
/// - see section 6.14 of data sheet for details
pub fn get_tach_reading<Ibd: I2cBusDevice>(ibd: &mut Ibd) -> (r: u16)
    ensures
        final(ibd).history() == old(ibd).history() + seq![
            read_op(DR::TachLsb.addr(), lo_byte(r)),
            read_op(DR::TachMsb.addr(), hi_byte(r)),
        ],
{
    read_u16_le(ibd, DR::TachLsb, DR::TachMsb)
}

/// read the fan's speed limit (expressed as "tach reading")
/// - the low byte is read first
pub fn get_tach_limit<Ibd: I2cBusDevice>(ibd: &mut Ibd) -> (r: u16)
    ensures
        final(ibd).history() == old(ibd).history() + seq![
            read_op(DR::TachLoLsb.addr(), lo_byte(r)),
            read_op(DR::TachLoMsb.addr(), hi_byte(r)),
        ],
{
    read_u16_le(ibd, DR::TachLoLsb, DR::TachLoMsb)
}

/// change the fan's speed limit (expressed as "tach reading")
/// - the low byte is written first
pub fn set_tach_limit<Ibd: I2cBusDevice>(ibd: &mut Ibd, tach: u16)
    ensures
        final(ibd).history() == old(ibd).history() + seq![
            write_op(DR::TachLoLsb.addr(), lo_byte(tach)),
            write_op(DR::TachLoMsb.addr(), hi_byte(tach)),
        ],
{
    let lsb = (tach % 256) as u8;
    let msb = (tach / 256) as u8;
    write_pair(ibd, DR::TachLoLsb, lsb, DR::TachLoMsb, msb);
}

/// read two registers, `first` before `second`, as the low and high byte
/// of a 16 bit value
fn read_u16_le<Ibd: I2cBusDevice>(ibd: &mut Ibd, first: DR, second: DR) -> (r: u16)
    ensures
        final(ibd).history() == old(ibd).history() + seq![
            read_op(first.addr(), lo_byte(r)),
            read_op(second.addr(), hi_byte(r)),
        ],
{
    let (lsb, msb) = read_pair(ibd, first, second);
    (msb as u16) * 256 + (lsb as u16)
}

/// read two independent registers in the order given
fn read_pair<Ibd: I2cBusDevice>(ibd: &mut Ibd, first: DR, second: DR) -> (r: (u8, u8))
    ensures
        final(ibd).history() == old(ibd).history() + seq![
            read_op(first.addr(), r.0),
            read_op(second.addr(), r.1),
        ],
{
    let adr = [first.addr(), second.addr()];
    let values = ibd.read_multibyte_register_as_u8(DEVICE_ADDRESS, adr);
    proof {
        assert(register_reads(DEVICE_ADDRESS, adr@, values@) =~= seq![
            read_op(first.addr(), values[0]),
            read_op(second.addr(), values[1]),
        ]);
    }
    (values[0], values[1])
}

/// write two independent registers in the order given
fn write_pair<Ibd: I2cBusDevice>(ibd: &mut Ibd, first: DR, v1: u8, second: DR, v2: u8)
    ensures
        final(ibd).history() == old(ibd).history() + seq![
            write_op(first.addr(), v1),
            write_op(second.addr(), v2),
        ],
{
    let values = [[first.addr(), v1], [second.addr(), v2]];
    ibd.write_multibyte_register_as_u8(DEVICE_ADDRESS, values);
    proof {
        assert(register_writes(DEVICE_ADDRESS, values@) =~= seq![
            write_op(first.addr(), v1),
            write_op(second.addr(), v2),
        ]);
    }
}

/// read the fan config register
pub fn get_fan_config<Ibd: I2cBusDevice>(ibd: &mut Ibd) -> (r: u8)
    ensures
        final(ibd).history() == old(ibd).history().push(read_op(DR::FanCfg.addr(), r)),
{
    ibd.read_register_as_byte(DEVICE_ADDRESS, DR::FanCfg.addr())
}

/// change the fan config register
/// - the byte is written as it is: every bit is a setting
pub fn set_fan_config<Ibd: I2cBusDevice>(ibd: &mut Ibd, value: u8)
    ensures
        final(ibd).history() == old(ibd).history().push(write_op(DR::FanCfg.addr(), value)),
{
    ibd.write_register_as_byte(DEVICE_ADDRESS, DR::FanCfg.addr(), value);
}

/// read the fan spin up behavior register
pub fn get_spin_up_behavior<Ibd: I2cBusDevice>(ibd: &mut Ibd) -> (r: u8)
    ensures
        final(ibd).history() == old(ibd).history().push(read_op(DR::FanSpinUp.addr(), r)),
{
    ibd.read_register_as_byte(DEVICE_ADDRESS, DR::FanSpinUp.addr())
}

/// change the fan spin up behavior register
/// - the byte is written as it is: every bit is a setting
pub fn set_spin_up_behavior<Ibd: I2cBusDevice>(ibd: &mut Ibd, value: u8)
    ensures
        final(ibd).history() == old(ibd).history().push(write_op(DR::FanSpinUp.addr(), value)),
{
    ibd.write_register_as_byte(DEVICE_ADDRESS, DR::FanSpinUp.addr(), value);
}

/// read the fan speed register
/// - the granularity of this value depends on the chosen PWM setting
/// - this value has no effect if a lookup table is used
///
/// expected range: 0..=32
pub fn get_fan_speed<Ibd: I2cBusDevice>(ibd: &mut Ibd) -> (r: u8)
    ensures
        final(ibd).history() == old(ibd).history().push(read_op(DR::FanSpeed.addr(), r)),
{
    ibd.read_register_as_byte(DEVICE_ADDRESS, DR::FanSpeed.addr())
}

/// change the fan speed register
/// - the value is clamped to 0..=32
/// - this value has no effect if a lookup table is used
pub fn set_fan_speed<Ibd: I2cBusDevice>(ibd: &mut Ibd, value: u8)
    ensures
        final(ibd).history() == old(ibd).history().push(
            write_op(DR::FanSpeed.addr(), clamp_u8(value, 0, 32)),
        ),
{
    let value_clamped = clamp(value, 0, 32);
    ibd.write_register_as_byte(DEVICE_ADDRESS, DR::FanSpeed.addr(), value_clamped);
}

/// read the PWM frequency register
///
/// expected range: 0..32
pub fn get_pwm_frequency<Ibd: I2cBusDevice>(ibd: &mut Ibd) -> (r: u8)
    ensures
        final(ibd).history() == old(ibd).history().push(read_op(DR::PwmFrq.addr(), r)),
{
    ibd.read_register_as_byte(DEVICE_ADDRESS, DR::PwmFrq.addr())
}

/// change the PWM frequency register
/// - the value is clamped to 0..=31
pub fn set_pwm_frequency<Ibd: I2cBusDevice>(ibd: &mut Ibd, value: u8)
    ensures
        final(ibd).history() == old(ibd).history().push(
            write_op(DR::PwmFrq.addr(), clamp_u8(value, 0, 31)),
        ),
{
    let value_clamped = clamp(value, 0, 31);
    ibd.write_register_as_byte(DEVICE_ADDRESS, DR::PwmFrq.addr(), value_clamped);
}

/// read the PWM frequency divider register
pub fn get_pwm_frequency_divider<Ibd: I2cBusDevice>(ibd: &mut Ibd) -> (r: u8)
    ensures
        final(ibd).history() == old(ibd).history().push(read_op(DR::PwmFrqDiv.addr(), r)),
{
    ibd.read_register_as_byte(DEVICE_ADDRESS, DR::PwmFrqDiv.addr())
}

/// change the PWM frequency divider register
pub fn set_pwm_frequency_divider<Ibd: I2cBusDevice>(ibd: &mut Ibd, value: u8)
    ensures
        final(ibd).history() == old(ibd).history().push(write_op(DR::PwmFrqDiv.addr(), value)),
{
    ibd.write_register_as_byte(DEVICE_ADDRESS, DR::PwmFrqDiv.addr(), value);
}

// ------------------------------------------------------------------------
// temperature measurements
// ------------------------------------------------------------------------

/// read the temperature conversion rate register
///
/// expected range: 0..16
pub fn get_conversion_rate<Ibd: I2cBusDevice>(ibd: &mut Ibd) -> (r: u8)
    ensures
        final(ibd).history() == old(ibd).history().push(read_op(DR::ConvRate.addr(), r)),
{
    ibd.read_register_as_byte(DEVICE_ADDRESS, DR::ConvRate.addr())
}

/// change the temperature conversion rate register
///
/// expected range: 0..16
pub fn set_conversion_rate<Ibd: I2cBusDevice>(ibd: &mut Ibd, value: u8)
    ensures
        final(ibd).history() == old(ibd).history().push(write_op(DR::ConvRate.addr(), value)),
{
    ibd.write_register_as_byte(DEVICE_ADDRESS, DR::ConvRate.addr(), value);
}

/// read the temperature measured by the internal sensor (in °C)
///  - the data sheet guarantees a precision of ±2°C
///
/// expected range: 0x00 (0°C) to 0x55 (85°C)
pub fn get_internal_temperature<Ibd: I2cBusDevice>(ibd: &mut Ibd) -> (r: u8)
    ensures
        final(ibd).history() == old(ibd).history().push(read_op(DR::Its.addr(), r)),
{
    ibd.read_register_as_byte(DEVICE_ADDRESS, DR::Its.addr())
}

/// read the "high temperature" alerting limit
///
/// expected range: 0x00 (0.0°C) to 0x55 (85.0°C)
/// default: 0x46 (70.0°C)
pub fn get_internal_temperature_high_limit<Ibd: I2cBusDevice>(ibd: &mut Ibd) -> (r: u8)
    ensures
        final(ibd).history() == old(ibd).history().push(read_op(DR::ItsHi.addr(), r)),
{
    ibd.read_register_as_byte(DEVICE_ADDRESS, DR::ItsHi.addr())
}

/// set the "high temperature" alerting limit
/// - a limit above 0x55 (85°C) is refused: nothing is written and the
///   result is false
pub fn set_internal_temperature_high_limit<Ibd: I2cBusDevice>(ibd: &mut Ibd, limit: u8) -> (r: bool)
    ensures
        r == (limit <= 85),
        final(ibd).history() == if r {
            old(ibd).history().push(write_op(DR::ItsHi.addr(), limit))
        } else {
            old(ibd).history()
        },
{
    if limit <= 85 {
        ibd.write_register_as_byte(DEVICE_ADDRESS, DR::ItsHi.addr(), limit);
        true
    } else {
        false
    }
}

/// read the alert mask
pub fn get_alert_mask<Ibd: I2cBusDevice>(ibd: &mut Ibd) -> (r: u8)
    ensures
        final(ibd).history() == old(ibd).history().push(read_op(DR::AlrtMsk.addr(), r)),
{
    ibd.read_register_as_byte(DEVICE_ADDRESS, DR::AlrtMsk.addr())
}

/// change the alert mask
pub fn set_alert_mask<Ibd: I2cBusDevice>(ibd: &mut Ibd, byte: u8)
    ensures
        final(ibd).history() == old(ibd).history().push(write_op(DR::AlrtMsk.addr(), byte)),
{
    ibd.write_register_as_byte(DEVICE_ADDRESS, DR::AlrtMsk.addr(), byte);
}

/// read the external sensor's beta compensation factor
pub fn get_ets_bcf<Ibd: I2cBusDevice>(ibd: &mut Ibd) -> (r: u8)
    ensures
        final(ibd).history() == old(ibd).history().push(read_op(DR::EtsBcf.addr(), r)),
{
    ibd.read_register_as_byte(DEVICE_ADDRESS, DR::EtsBcf.addr())
}

/// change the external sensor's beta compensation factor
pub fn set_ets_bcf<Ibd: I2cBusDevice>(ibd: &mut Ibd, byte: u8)
    ensures
        final(ibd).history() == old(ibd).history().push(write_op(DR::EtsBcf.addr(), byte)),
{
    ibd.write_register_as_byte(DEVICE_ADDRESS, DR::EtsBcf.addr(), byte);
}

/// read the external sensor's diode ideality factor
pub fn get_ets_dif<Ibd: I2cBusDevice>(ibd: &mut Ibd) -> (r: u8)
    ensures
        final(ibd).history() == old(ibd).history().push(read_op(DR::EtsDif.addr(), r)),
{
    ibd.read_register_as_byte(DEVICE_ADDRESS, DR::EtsDif.addr())
}

/// change the external sensor's diode ideality factor
pub fn set_ets_dif<Ibd: I2cBusDevice>(ibd: &mut Ibd, byte: u8)
    ensures
        final(ibd).history() == old(ibd).history().push(write_op(DR::EtsDif.addr(), byte)),
{
    ibd.write_register_as_byte(DEVICE_ADDRESS, DR::EtsDif.addr(), byte);
}

/// read the external sensor's critical temperature threshold
pub fn get_ets_tcrit_threshold<Ibd: I2cBusDevice>(ibd: &mut Ibd) -> (r: u8)
    ensures
        final(ibd).history() == old(ibd).history().push(read_op(DR::CritTemp.addr(), r)),
{
    ibd.read_register_as_byte(DEVICE_ADDRESS, DR::CritTemp.addr())
}

/// change the external sensor's critical temperature threshold
pub fn set_ets_tcrit_threshold<Ibd: I2cBusDevice>(ibd: &mut Ibd, byte: u8)
    ensures
        final(ibd).history() == old(ibd).history().push(write_op(DR::CritTemp.addr(), byte)),
{
    ibd.write_register_as_byte(DEVICE_ADDRESS, DR::CritTemp.addr(), byte);
}

/// read the external sensor's critical temperature hysteresis
pub fn get_ets_tcrit_hysteresis<Ibd: I2cBusDevice>(ibd: &mut Ibd) -> (r: u8)
    ensures
        final(ibd).history() == old(ibd).history().push(read_op(DR::CritHyst.addr(), r)),
{
    ibd.read_register_as_byte(DEVICE_ADDRESS, DR::CritHyst.addr())
}

/// change the external sensor's critical temperature hysteresis
pub fn set_ets_tcrit_hysteresis<Ibd: I2cBusDevice>(ibd: &mut Ibd, byte: u8)
    ensures
        final(ibd).history() == old(ibd).history().push(write_op(DR::CritHyst.addr(), byte)),
{
    ibd.write_register_as_byte(DEVICE_ADDRESS, DR::CritHyst.addr(), byte);
}

/// read the temperature measured by the external sensor as (msb, lsb)
/// - the high byte is read first: reading it latches the low byte
/// - negative values are represented using two's-complement
pub fn get_external_temperature<Ibd: I2cBusDevice>(ibd: &mut Ibd) -> (r: (u8, u8))
    ensures
        final(ibd).history() == old(ibd).history() + seq![
            read_op(DR::EtsMsb.addr(), r.0),
            read_op(DR::EtsLsb.addr(), r.1),
        ],
{
    read_pair(ibd, DR::EtsMsb, DR::EtsLsb)
}

/// override the temperature measured by the external temperature sensor
/// (see section 6.8 and 6.16 for details)
/// - requires the FORCE and PROG bit in the fan configuration register
///
/// expected range: 0x00 (0°C) to 0x55 (85°C)
pub fn set_external_temperature_override<Ibd: I2cBusDevice>(ibd: &mut Ibd, value: u8)
    ensures
        final(ibd).history() == old(ibd).history().push(write_op(DR::EtsFrc.addr(), value)),
{
    ibd.write_register_as_byte(DEVICE_ADDRESS, DR::EtsFrc.addr(), value);
}

/// read the "low temperature" alerting limit as (msb, lsb), high byte first
///
/// default: [0x00, 0x00] (0.0°C)
pub fn get_external_temperature_low_limit<Ibd: I2cBusDevice>(ibd: &mut Ibd) -> (r: (u8, u8))
    ensures
        final(ibd).history() == old(ibd).history() + seq![
            read_op(DR::EtsLoMsb.addr(), r.0),
            read_op(DR::EtsLoLsb.addr(), r.1),
        ],
{
    read_pair(ibd, DR::EtsLoMsb, DR::EtsLoLsb)
}

/// change the "low temperature" alerting limit, high byte first
pub fn set_external_temperature_low_limit<Ibd: I2cBusDevice>(ibd: &mut Ibd, bytes: (u8, u8))
    ensures
        final(ibd).history() == old(ibd).history() + seq![
            write_op(DR::EtsLoMsb.addr(), bytes.0),
            write_op(DR::EtsLoLsb.addr(), bytes.1),
        ],
{
    write_pair(ibd, DR::EtsLoMsb, bytes.0, DR::EtsLoLsb, bytes.1);
}

/// read the "high temperature" alerting limit as (msb, lsb), high byte first
///
/// default: [0x46, 0x00] (70.0°C)
pub fn get_external_temperature_high_limit<Ibd: I2cBusDevice>(ibd: &mut Ibd) -> (r: (u8, u8))
    ensures
        final(ibd).history() == old(ibd).history() + seq![
            read_op(DR::EtsHiMsb.addr(), r.0),
            read_op(DR::EtsHiLsb.addr(), r.1),
        ],
{
    read_pair(ibd, DR::EtsHiMsb, DR::EtsHiLsb)
}

/// change the "high temperature" alerting limit, high byte first
pub fn set_external_temperature_high_limit<Ibd: I2cBusDevice>(ibd: &mut Ibd, bytes: (u8, u8))
    ensures
        final(ibd).history() == old(ibd).history() + seq![
            write_op(DR::EtsHiMsb.addr(), bytes.0),
            write_op(DR::EtsHiLsb.addr(), bytes.1),
        ],
{
    write_pair(ibd, DR::EtsHiMsb, bytes.0, DR::EtsHiLsb, bytes.1);
}

/// trigger a temperature conversion ('one shot')
/// - device must be in standby mode
/// - the write is what counts, its value is ignored by the chip
pub fn trigger_one_shot<Ibd: I2cBusDevice>(ibd: &mut Ibd)
    ensures
        final(ibd).history() == old(ibd).history().push(write_op(DR::OneShot.addr(), 0)),
{
    ibd.write_register_as_byte(DEVICE_ADDRESS, DR::OneShot.addr(), 0x00);
}

/// get the level of digital averaging used for the external diode
/// temperature measurements
///
/// (see data sheet section 6.23 for details)
pub fn get_ets_averaging_filter<Ibd: I2cBusDevice>(ibd: &mut Ibd) -> (r: u8)
    ensures
        final(ibd).history() == old(ibd).history().push(read_op(DR::AvgFlt.addr(), r)),
{
    ibd.read_register_as_byte(DEVICE_ADDRESS, DR::AvgFlt.addr())
}

/// set the level of digital averaging used for the external diode
/// temperature measurements
///
/// (see data sheet section 6.23 for details)
pub fn set_ets_averaging_filter<Ibd: I2cBusDevice>(ibd: &mut Ibd, byte: u8)
    ensures
        final(ibd).history() == old(ibd).history().push(write_op(DR::AvgFlt.addr(), byte)),
{
    ibd.write_register_as_byte(DEVICE_ADDRESS, DR::AvgFlt.addr(), byte);
}

// ------------------------------------------------------------------------
// lookup table
// ------------------------------------------------------------------------

/// read the lookup table hysteresis register
pub fn get_lookup_table_hysteresis<Ibd: I2cBusDevice>(ibd: &mut Ibd) -> (r: u8)
    ensures
        final(ibd).history() == old(ibd).history().push(read_op(DR::LutHyst.addr(), r)),
{
    ibd.read_register_as_byte(DEVICE_ADDRESS, DR::LutHyst.addr())
}

/// change the lookup table hysteresis register
pub fn set_lookup_table_hysteresis<Ibd: I2cBusDevice>(ibd: &mut Ibd, byte: u8)
    ensures
        final(ibd).history() == old(ibd).history().push(write_op(DR::LutHyst.addr(), byte)),
{
    ibd.write_register_as_byte(DEVICE_ADDRESS, DR::LutHyst.addr(), byte);
}

/// read the lookup table registers, entry by entry (temperature, then fan
/// speed)
///
/// (see data sheet section 6.22 for details)
pub fn get_lookup_table<Ibd: I2cBusDevice>(ibd: &mut Ibd) -> (r: [(u8, u8); 8])
    ensures
        final(ibd).history() == old(ibd).history() + lut_reads(r@),
{
    let ghost start = ibd.history();
    let mut lut: [(u8, u8); 8] = [(0x00, 0x00); 8];
    let adr = DR::LutBase.addr();
    let mut i: usize = 0;
    while i < 8
        invariant
            0 <= i <= 8,
            adr == 0x50,
            ibd.history() == start + lut_reads(lut@.take(i as int)),
        decreases 8 - i,
    {
        let offset = (i as u8) * 2;  // 0, 2, 4, .. 14
        let temp = ibd.read_register_as_byte(DEVICE_ADDRESS, adr + offset);
        let speed = ibd.read_register_as_byte(DEVICE_ADDRESS, adr + offset + 1);
        let ghost prev = lut@;
        lut[i] = (temp, speed);
        proof {
            assert(lut@.take(i as int) =~= prev.take(i as int));
            assert(lut@.take(i + 1).drop_last() =~= lut@.take(i as int));
        }
        i += 1;
    }
    proof {
        assert(lut@.take(8) =~= lut@);
    }
    lut
}

/// change the lookup table registers, entry by entry (temperature, then
/// fan speed)
///
/// (see data sheet section 6.22 for details)
pub fn set_lookup_table<Ibd: I2cBusDevice>(ibd: &mut Ibd, lut: [(u8, u8); 8])
    ensures
        final(ibd).history() == old(ibd).history() + lut_writes(lut@),
{
    let ghost start = ibd.history();
    let adr = DR::LutBase.addr();
    let mut i: usize = 0;
    while i < 8
        invariant
            0 <= i <= 8,
            adr == 0x50,
            ibd.history() == start + lut_writes(lut@.take(i as int)),
        decreases 8 - i,
    {
        let offset = (i as u8) * 2;  // 0, 2, 4, .. 14
        ibd.write_register_as_byte(DEVICE_ADDRESS, adr + offset, lut[i].0);
        ibd.write_register_as_byte(DEVICE_ADDRESS, adr + offset + 1, lut[i].1);
        proof {
            assert(lut@.take(i + 1).drop_last() =~= lut@.take(i as int));
        }
        i += 1;
    }
    proof {
        assert(lut@.take(8) =~= lut@);
    }
}

} // verus!
