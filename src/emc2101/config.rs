/*
    various functions for configuring the hardware
*/
use crate::emc2101::data_objects::{flag, flag_bits, AlertMask, ConfigRegister, SpinUpBehavior};
use crate::emc2101::hw::{
    self, clamp, clamp_u8, defaults::DEFAULTS, default_reads, default_writes, holds_defaults,
    last_read, read_op,
    write_op, DR,
};
use crate::traits::{read_values, I2cBusDevice};
use vstd::prelude::*;

verus! {

/// reset the device registers to their default values
pub fn reset_device_registers<Ibd: I2cBusDevice>(ibd: &mut Ibd)
    ensures
        final(ibd).history() == old(ibd).history() + default_writes(),
{
    hw::reset_device_registers(ibd);
}

/// compare currently stored values to default values
/// (use after reset_device_registers())
pub fn validate_device_registers<Ibd: I2cBusDevice>(ibd: &mut Ibd) -> (r: bool)
    ensures
        ({
            let values = read_values(final(ibd).history().skip(old(ibd).history().len() as int));
            &&& values.len() == DEFAULTS@.len()
            &&& final(ibd).history() == old(ibd).history() + default_reads(values)
            &&& r == holds_defaults(values)
        }),
{
    hw::validate_device_registers(ibd)
}

/// read the config register
///
/// (see data sheet section 6.5 for details)
pub fn get_config_register<Ibd: I2cBusDevice>(ibd: &mut Ibd) -> (r: ConfigRegister)
    ensures
        ({
            let b = last_read(final(ibd).history());
            &&& final(ibd).history() == old(ibd).history().push(read_op(DR::Cfg.addr(), b))
            &&& r == ConfigRegister::decode(b)
        }),
{
    ConfigRegister::from(hw::get_config_register(ibd))
}

/// change the config register
///
/// (see data sheet section 6.5 for details)
pub fn set_config_register<Ibd: I2cBusDevice>(ibd: &mut Ibd, cr: ConfigRegister)
    ensures
        final(ibd).history() == old(ibd).history().push(write_op(DR::Cfg.addr(), cr.encode())),
{
    hw::set_config_register(ibd, u8::from(cr));
}

/// read the alert mask
///
/// (see data sheet section 6.11 for details)
pub fn get_alert_mask<Ibd: I2cBusDevice>(ibd: &mut Ibd) -> (r: AlertMask)
    ensures
        ({
            let b = last_read(final(ibd).history());
            &&& final(ibd).history() == old(ibd).history().push(read_op(DR::AlrtMsk.addr(), b))
            &&& r == AlertMask::decode(b)
        }),
{
    AlertMask::from(hw::get_alert_mask(ibd))
}

/// change the alert mask (the bits that must always be set are set)
///
/// (see data sheet section 6.11 for details)
pub fn set_alert_mask<Ibd: I2cBusDevice>(ibd: &mut Ibd, am: AlertMask)
    ensures
        final(ibd).history() == old(ibd).history().push(write_op(DR::AlrtMsk.addr(), am.encode())),
{
    hw::set_alert_mask(ibd, u8::from(am));
}

/// read the fan spin up behavior
pub fn get_spin_up_behavior<Ibd: I2cBusDevice>(ibd: &mut Ibd) -> (r: SpinUpBehavior)
    ensures
        ({
            let b = last_read(final(ibd).history());
            &&& final(ibd).history() == old(ibd).history().push(read_op(DR::FanSpinUp.addr(), b))
            &&& r == SpinUpBehavior::decode(b)
        }),
{
    let value = hw::get_spin_up_behavior(ibd);
    SpinUpBehavior::from_register(value)
}

/// change the fan spin up behavior
pub fn set_spin_up_behavior<Ibd: I2cBusDevice>(ibd: &mut Ibd, sub: SpinUpBehavior)
    ensures
        final(ibd).history() == old(ibd).history().push(
            write_op(DR::FanSpinUp.addr(), sub.encode()),
        ),
{
    hw::set_spin_up_behavior(ibd, sub.to_register());
}

// ------------------------------------------------------------------------
// Fan Config
// ------------------------------------------------------------------------

/// the fan configuration register (0x4A)
///
/// see data sheet (section 6.16) for details
#[derive(Clone, Copy, Debug, PartialEq, Eq)]
pub struct FanConfig {
    // bit 7 is unused
    pub force: bool,  // enable the external temperature force register
    pub prog: bool,  // enable lookup table
    pub polarity: bool,  // duty cycle polarity: 0..63 = 0..100% or 0..63 = 100..0%
    pub clk_sel: bool,  // pwm base clock selection
    pub clk_ovr: bool,  // clock selection override
    pub tach_mode: bool,  // select value to indicate "rpm low"
}

impl FanConfig {
    /// The register value `value` read field by field; any non-zero value
    /// of bits 0-1 selects the tach mode.
    pub open spec fn decode(value: u8) -> FanConfig {
        FanConfig {
            force: value & 0b0100_0000 != 0,
            prog: value & 0b0010_0000 != 0,
            polarity: value & 0b0001_0000 != 0,
            clk_sel: value & 0b0000_1000 != 0,
            clk_ovr: value & 0b0000_0100 != 0,
            tach_mode: value & 0b0000_0011 != 0,
        }
    }

    /// The register value; the tach mode sets both bits 0 and 1.
    pub open spec fn encode(self) -> u8 {
        flag(self.force, 0b0100_0000) | flag(self.prog, 0b0010_0000) | flag(
            self.polarity,
            0b0001_0000,
        ) | flag(self.clk_sel, 0b0000_1000) | flag(self.clk_ovr, 0b0000_0100) | flag(
            self.tach_mode,
            0b0000_0011,
        )
    }
}

/// A byte survives a decode followed by an encode, except that the unused
/// bit 7 comes back clear and a non-zero tach mode field comes back as 0b11.
pub proof fn lemma_fan_config_round_trip(value: u8)
    ensures
        FanConfig::decode(value).encode() == (value & 0b0111_1100) | (if value & 0b0000_0011 != 0 {
            0b0000_0011u8
        } else {
            0
        }),
{
    assert((if value & 0x40 != 0 { 0x40u8 } else { 0u8 }) | (if value & 0x20 != 0 {
        0x20u8
    } else {
        0u8
    }) | (if value & 0x10 != 0 { 0x10u8 } else { 0u8 }) | (if value & 0x08 != 0 {
        0x08u8
    } else {
        0u8
    }) | (if value & 0x04 != 0 { 0x04u8 } else { 0u8 }) | (if value & 0x03 != 0 {
        0x03u8
    } else {
        0u8
    }) == (value & 0x7C) | (if value & 0x03 != 0 { 0x03u8 } else { 0u8 })) by (bit_vector);
}

/// read the fan config register
pub fn get_fan_config<Ibd: I2cBusDevice>(ibd: &mut Ibd) -> (r: FanConfig)
    ensures
        ({
            let b = last_read(final(ibd).history());
            &&& final(ibd).history() == old(ibd).history().push(read_op(DR::FanCfg.addr(), b))
            &&& r == FanConfig::decode(b)
        }),
{
    let value = hw::get_fan_config(ibd);

    FanConfig {
        force: (value & 0b0100_0000) != 0,
        prog: (value & 0b0010_0000) != 0,
        polarity: (value & 0b0001_0000) != 0,
        clk_sel: (value & 0b0000_1000) != 0,
        clk_ovr: (value & 0b0000_0100) != 0,
        // 0b01, 0b10 and 0b11 all have the same meaning
        tach_mode: (value & 0b0000_0011) != 0,
    }
}

/// change the fan config register
pub fn set_fan_config<Ibd: I2cBusDevice>(ibd: &mut Ibd, fan_config: FanConfig)
    ensures
        final(ibd).history() == old(ibd).history().push(
            write_op(DR::FanCfg.addr(), fan_config.encode()),
        ),
{
    let value = flag_bits(fan_config.force, 0b0100_0000) | flag_bits(fan_config.prog, 0b0010_0000)
        | flag_bits(fan_config.polarity, 0b0001_0000) | flag_bits(fan_config.clk_sel, 0b0000_1000)
        | flag_bits(fan_config.clk_ovr, 0b0000_0100) | flag_bits(fan_config.tach_mode, 0b0000_0011);
    hw::set_fan_config(ibd, value);
}

// ------------------------------------------------------------------------
// PWM related settings
// ------------------------------------------------------------------------

/// the fan's PWM settings
#[derive(Clone, Copy, Debug, PartialEq, Eq)]
pub struct PwmSettings {
    pub frequency: u8,  // range: 0..32
    pub divider: u8,  // range: 0..256
}

/// read the fan's PWM settings (frequency, then divider)
pub fn get_pwm_settings<Ibd: I2cBusDevice>(ibd: &mut Ibd) -> (r: PwmSettings)
    ensures
        final(ibd).history() == old(ibd).history() + seq![
            read_op(DR::PwmFrq.addr(), r.frequency),
            read_op(DR::PwmFrqDiv.addr(), r.divider),
        ],
{
    let pwm_f = hw::get_pwm_frequency(ibd);
    let pwm_d = hw::get_pwm_frequency_divider(ibd);
    PwmSettings { frequency: pwm_f, divider: pwm_d }
}

/// change the fan's PWM settings (frequency, clamped to 0..=31, then
/// divider)
/// (the values determine the available steps for setting the fan speed)
pub fn set_pwm_settings<Ibd: I2cBusDevice>(ibd: &mut Ibd, pwm: PwmSettings)
    ensures
        final(ibd).history() == old(ibd).history() + seq![
            write_op(DR::PwmFrq.addr(), clamp_u8(pwm.frequency, 0, 31)),
            write_op(DR::PwmFrqDiv.addr(), pwm.divider),
        ],
{
    hw::set_pwm_frequency(ibd, pwm.frequency);
    hw::set_pwm_frequency_divider(ibd, pwm.divider);
}

} // verus!
