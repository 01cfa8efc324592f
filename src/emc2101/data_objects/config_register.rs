/*
    EMC2101's config register (0x03)
*/
use super::{flag, flag_bits};
use vstd::prelude::*;

verus! {

/// a representation of the EMC2101's config register (0x03)
///
/// this is not the entire configuration, there are additional registers
/// which configure different aspects of this chip, e.g. fan configuration
/// register (0x4A)
///
/// for an exhaustive description refer to the data sheet (section 6.5)
#[derive(Clone, Copy, Debug, PartialEq, Eq)]
pub struct ConfigRegister {
    // the comment describes what happens if the value is set to True
    pub mask: bool,  // disable ALERT/TACH when in interrupt mode
    pub standby: bool,  // enable low power standby mode
    pub fan_standby: bool,  // disable fan output while in standby
    pub dac: bool,  // enable DAC output on FAN pin
    pub dis_to: bool,  // disable I²C bus timeout
    pub alt_tach: bool,  // configure pin six as tacho input
    pub tcrit_ovrd: bool,  // unlock tcrit limit and allow one-time write
    pub queue: bool,  // alert after 3 critical temperature readings
}

impl ConfigRegister {
    /// The register value `value` read field by field (bit 7 down to bit 0).
    pub open spec fn decode(value: u8) -> ConfigRegister {
        ConfigRegister {
            mask: value & 0b1000_0000 != 0,
            standby: value & 0b0100_0000 != 0,
            fan_standby: value & 0b0010_0000 != 0,
            dac: value & 0b0001_0000 != 0,
            dis_to: value & 0b0000_1000 != 0,
            alt_tach: value & 0b0000_0100 != 0,
            tcrit_ovrd: value & 0b0000_0010 != 0,
            queue: value & 0b0000_0001 != 0,
        }
    }

    /// The register value with one bit per field.
    pub open spec fn encode(self) -> u8 {
        flag(self.mask, 0b1000_0000) | flag(self.standby, 0b0100_0000) | flag(
            self.fan_standby,
            0b0010_0000,
        ) | flag(self.dac, 0b0001_0000) | flag(self.dis_to, 0b0000_1000) | flag(
            self.alt_tach,
            0b0000_0100,
        ) | flag(self.tcrit_ovrd, 0b0000_0010) | flag(self.queue, 0b0000_0001)
    }
}

impl From<u8> for ConfigRegister {
    fn from(value: u8) -> (r: Self)
        ensures
            r == ConfigRegister::decode(value),
    {
        ConfigRegister {
            mask: (value & 0b1000_0000) != 0,
            standby: (value & 0b0100_0000) != 0,
            fan_standby: (value & 0b0010_0000) != 0,
            dac: (value & 0b0001_0000) != 0,
            dis_to: (value & 0b0000_1000) != 0,
            alt_tach: (value & 0b0000_0100) != 0,
            tcrit_ovrd: (value & 0b0000_0010) != 0,
            queue: (value & 0b0000_0001) != 0,
        }
    }
}

impl vstd::std_specs::convert::FromSpecImpl<u8> for ConfigRegister {
    open spec fn obeys_from_spec() -> bool {
        true
    }

    open spec fn from_spec(v: u8) -> Self {
        ConfigRegister::decode(v)
    }
}

impl From<ConfigRegister> for u8 {
    fn from(cr: ConfigRegister) -> (r: Self)
        ensures
            r == cr.encode(),
    {
        flag_bits(cr.mask, 0b1000_0000) | flag_bits(cr.standby, 0b0100_0000) | flag_bits(
            cr.fan_standby,
            0b0010_0000,
        ) | flag_bits(cr.dac, 0b0001_0000) | flag_bits(cr.dis_to, 0b0000_1000) | flag_bits(
            cr.alt_tach,
            0b0000_0100,
        ) | flag_bits(cr.tcrit_ovrd, 0b0000_0010) | flag_bits(cr.queue, 0b0000_0001)
    }
}

impl vstd::std_specs::convert::FromSpecImpl<ConfigRegister> for u8 {
    open spec fn obeys_from_spec() -> bool {
        true
    }

    open spec fn from_spec(v: ConfigRegister) -> Self {
        v.encode()
    }
}

/// Every byte survives a decode followed by an encode: the config register
/// has no reserved bits.
pub proof fn lemma_config_register_round_trip(value: u8)
    ensures
        ConfigRegister::decode(value).encode() == value,
{
    assert((if value & 0x80 != 0 { 0x80u8 } else { 0u8 }) | (if value & 0x40 != 0 {
        0x40u8
    } else {
        0u8
    }) | (if value & 0x20 != 0 { 0x20u8 } else { 0u8 }) | (if value & 0x10 != 0 {
        0x10u8
    } else {
        0u8
    }) | (if value & 0x08 != 0 { 0x08u8 } else { 0u8 }) | (if value & 0x04 != 0 {
        0x04u8
    } else {
        0u8
    }) | (if value & 0x02 != 0 { 0x02u8 } else { 0u8 }) | (if value & 0x01 != 0 {
        0x01u8
    } else {
        0u8
    }) == value) by (bit_vector);
}

} // verus!
