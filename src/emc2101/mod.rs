/*
    interface for SMSC's EMC2101 and EMC2101-R fan controller chips
*/

mod config;
mod conversion_rate;
pub mod conversions;
mod data_objects;
mod fan;
mod hardware_details;
pub mod hw;
mod lut;
mod scratch_register;
mod temperature;

pub use data_objects::{
    flag, flag_bits, lemma_alert_mask_always_set, lemma_alert_mask_round_trip,
    lemma_averaging_filter_round_trip, lemma_config_register_round_trip,
    lemma_spin_up_behavior_round_trip, AlertMask, AlertPinMode, AveragingFilter,
    AveragingFilterMode, BetaCompensation, BetaCompensationMode, ConfigRegister, SpinUpBehavior,
    SpinUpDuration, SpinUpStrength, ALERT_MASK_ALWAYS_SET,
};
pub use temperature::{
    convert_bytes2temperature, convert_temperature2bytes, diode_status, external_bytes,
    external_read_ops, external_reading, external_temperature, get_ets_averaging_filter,
    get_ets_bcf, get_ets_critical_limit, get_ets_dif, get_external_temperature,
    get_external_temperature_high_limit, get_external_temperature_low_limit,
    get_internal_temperature, get_internal_temperature_high_limit,
    lemma_external_bytes_step, lemma_external_temperature_round_trip, limit_clamp, set_ets_averaging_filter, set_ets_bcf,
    set_ets_critical_limit, set_ets_dif, set_external_temperature_high_limit,
    set_external_temperature_low_limit, set_external_temperature_override,
    set_internal_temperature_high_limit, signed, temperature_clamp, AlertFilterMode, ExternalDiodeStatus,
};
pub use config::{
    get_alert_mask, get_config_register, get_fan_config, get_pwm_settings, get_spin_up_behavior,
    lemma_fan_config_round_trip, reset_device_registers, set_alert_mask, set_config_register,
    set_fan_config, set_pwm_settings, set_spin_up_behavior, validate_device_registers, FanConfig,
    PwmSettings,
};
pub use conversion_rate::{
    get_conversion_rate, lemma_conversion_rate_codes, set_conversion_rate, ConversionRate,
};
pub use fan::{
    convert_rpm2tach, convert_tach2rpm, get_fan_speed, get_minimum_rpm, get_rpm, lemma_le_u16,
    set_fan_speed, set_minimum_rpm,
};
pub use hardware_details::{
    get_hardware_details, get_status_register, manufacturer_name, product_name, HardwareDetails,
    StatusRegister, UNKNOWN,
};
pub use lut::{
    clamp_lut, clamp_lut_entry, get_lookup_table, get_lookup_table_hysteresis, lemma_lut_clamp,
    lemma_lut_read_back, lemma_lut_writes, set_lookup_table, set_lookup_table_hysteresis,
};
pub use scratch_register::{
    get_scratch_register1, get_scratch_register2, set_scratch_register1, set_scratch_register2,
};
