/*
    fan speed measurement and control
*/
use crate::emc2101::conversions::{rpm_to_tach, tach_to_rpm};
use crate::emc2101::hw::{self, clamp_u8, hi_byte, le_u16, lo_byte, read_op, write_op, DR};
use crate::traits::{op_value, I2cBusDevice};
use vstd::prelude::*;

pub use crate::emc2101::conversions::{convert_rpm2tach, convert_tach2rpm};

verus! {

/// read the fan's current RPM (from the tach reading, low byte first)
///
/// expected range: 82 to 5_400_000
pub fn get_rpm<Ibd: I2cBusDevice>(ibd: &mut Ibd) -> (r: u32)
    ensures
        ({
            let h = final(ibd).history();
            let lo = op_value(h[h.len() - 2]);
            let hi = op_value(h[h.len() - 1]);
            &&& h == old(ibd).history() + seq![
                read_op(DR::TachLsb.addr(), lo),
                read_op(DR::TachMsb.addr(), hi),
            ]
            &&& r as int == tach_to_rpm(le_u16(lo, hi))
        }),
{
    let tach = hw::get_tach_reading(ibd);
    proof {
        lemma_le_u16(tach);
    }
    convert_tach2rpm(tach)
}

/// read the fan speed register
/// - this value has no effect if a lookup table is used
pub fn get_fan_speed<Ibd: I2cBusDevice>(ibd: &mut Ibd) -> (r: u8)
    ensures
        final(ibd).history() == old(ibd).history().push(read_op(DR::FanSpeed.addr(), r)),
{
    hw::get_fan_speed(ibd)
}

/// change the fan speed register
/// - the value is clamped to 0..=32 (the chip's usable duty-cycle steps)
/// - this value has no effect if a lookup table is used: the caller must
///   disable the table first
/// - remember that the change won't instantly change the actual RPM!
pub fn set_fan_speed<Ibd: I2cBusDevice>(ibd: &mut Ibd, value: u8)
    ensures
        final(ibd).history() == old(ibd).history().push(
            write_op(DR::FanSpeed.addr(), clamp_u8(value, 0, 32)),
        ),
{
    hw::set_fan_speed(ibd, value);
}

/// read the fan's minimum RPM (from the tach limit, low byte first)
/// - if the measured RPM is below this RPM the fan is considered to be not
///   spinning and the TACH bit is set in the status register (sr.rpm_low)
///
/// expected range: 82 to 5_400_000
pub fn get_minimum_rpm<Ibd: I2cBusDevice>(ibd: &mut Ibd) -> (r: u32)
    ensures
        ({
            let h = final(ibd).history();
            let lo = op_value(h[h.len() - 2]);
            let hi = op_value(h[h.len() - 1]);
            &&& h == old(ibd).history() + seq![
                read_op(DR::TachLoLsb.addr(), lo),
                read_op(DR::TachLoMsb.addr(), hi),
            ]
            &&& r as int == tach_to_rpm(le_u16(lo, hi))
        }),
{
    let tach = hw::get_tach_limit(ibd);
    proof {
        lemma_le_u16(tach);
    }
    convert_tach2rpm(tach)
}

/// change the fan's minimum RPM (as a tach limit, low byte first)
/// - values below `RPM_MIN` are clamped to it
pub fn set_minimum_rpm<Ibd: I2cBusDevice>(ibd: &mut Ibd, rpm: u32)
    ensures
        final(ibd).history() == old(ibd).history() + seq![
            write_op(DR::TachLoLsb.addr(), lo_byte(rpm_to_tach(rpm) as u16)),
            write_op(DR::TachLoMsb.addr(), hi_byte(rpm_to_tach(rpm) as u16)),
        ],
{
    let tach = convert_rpm2tach(rpm);
    hw::set_tach_limit(ibd, tach);
}

/// A 16 bit value is rebuilt from its low and high byte.
pub proof fn lemma_le_u16(v: u16)
    ensures
        le_u16(lo_byte(v), hi_byte(v)) == v,
{
}

} // verus!
