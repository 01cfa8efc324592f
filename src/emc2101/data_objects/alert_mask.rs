/*
    EMC2101's alert mask (0x16)
*/
use super::{flag, flag_bits};
use vstd::prelude::*;

verus! {

/// Bits of the alert mask register that the chip requires to be set.
pub const ALERT_MASK_ALWAYS_SET: u8 = 0b1010_0100;

/// a representation of the EMC2101's alert mask register (0x16)
///
/// bits 7, 5 and 2 are not represented: they are ignored when reading and
/// always set when writing
#[derive(Clone, Copy, Debug, PartialEq, Eq)]
pub struct AlertMask {
    // internal diode
    pub int_mask: bool,
    // external diode
    pub hi_mask: bool,
    pub lo_mask: bool,
    pub tcrit_mask: bool,
    // fan
    pub tach_mask: bool,
}

impl AlertMask {
    /// The register value `value` read field by field.
    pub open spec fn decode(value: u8) -> AlertMask {
        AlertMask {
            int_mask: value & 0b0100_0000 != 0,
            hi_mask: value & 0b0001_0000 != 0,
            lo_mask: value & 0b0000_1000 != 0,
            tcrit_mask: value & 0b0000_0010 != 0,
            tach_mask: value & 0b0000_0001 != 0,
        }
    }

    /// The register value: the always-set bits plus one bit per field.
    pub open spec fn encode(self) -> u8 {
        ALERT_MASK_ALWAYS_SET | flag(self.int_mask, 0b0100_0000) | flag(self.hi_mask, 0b0001_0000)
            | flag(self.lo_mask, 0b0000_1000) | flag(self.tcrit_mask, 0b0000_0010) | flag(
            self.tach_mask,
            0b0000_0001,
        )
    }
}

impl From<u8> for AlertMask {
    fn from(value: u8) -> (r: Self)
        ensures
            r == AlertMask::decode(value),
    {
        AlertMask {
            int_mask: (value & 0b0100_0000) != 0,
            hi_mask: (value & 0b0001_0000) != 0,
            lo_mask: (value & 0b0000_1000) != 0,
            tcrit_mask: (value & 0b0000_0010) != 0,
            tach_mask: (value & 0b0000_0001) != 0,
        }
    }
}

impl vstd::std_specs::convert::FromSpecImpl<u8> for AlertMask {
    open spec fn obeys_from_spec() -> bool {
        true
    }

    open spec fn from_spec(v: u8) -> Self {
        AlertMask::decode(v)
    }
}

impl From<AlertMask> for u8 {
    fn from(am: AlertMask) -> (r: Self)
        ensures
            r == am.encode(),
    {
        ALERT_MASK_ALWAYS_SET | flag_bits(am.int_mask, 0b0100_0000) | flag_bits(
            am.hi_mask,
            0b0001_0000,
        ) | flag_bits(am.lo_mask, 0b0000_1000) | flag_bits(am.tcrit_mask, 0b0000_0010)
            | flag_bits(am.tach_mask, 0b0000_0001)
    }
}

impl vstd::std_specs::convert::FromSpecImpl<AlertMask> for u8 {
    open spec fn obeys_from_spec() -> bool {
        true
    }

    open spec fn from_spec(v: AlertMask) -> Self {
        v.encode()
    }
}

/// A byte survives a decode followed by an encode, except that the
/// always-set bits come back set whatever they were.
pub proof fn lemma_alert_mask_round_trip(value: u8)
    ensures
        AlertMask::decode(value).encode() == value | ALERT_MASK_ALWAYS_SET,
{
    assert(0xA4u8 | (if value & 0x40 != 0 { 0x40u8 } else { 0u8 }) | (if value & 0x10 != 0 {
        0x10u8
    } else {
        0u8
    }) | (if value & 0x08 != 0 { 0x08u8 } else { 0u8 }) | (if value & 0x02 != 0 {
        0x02u8
    } else {
        0u8
    }) | (if value & 0x01 != 0 { 0x01u8 } else { 0u8 }) == value | 0xA4u8) by (bit_vector);
}

/// Decoding ignores the always-set bits, and every encoded mask has them set.
pub proof fn lemma_alert_mask_always_set(value: u8, am: AlertMask)
    ensures
        AlertMask::decode(value | ALERT_MASK_ALWAYS_SET) == AlertMask::decode(value),
        am.encode() & ALERT_MASK_ALWAYS_SET == ALERT_MASK_ALWAYS_SET,
{
    assert((value | 0xA4u8) & 0x40 == value & 0x40) by (bit_vector);
    assert((value | 0xA4u8) & 0x10 == value & 0x10) by (bit_vector);
    assert((value | 0xA4u8) & 0x08 == value & 0x08) by (bit_vector);
    assert((value | 0xA4u8) & 0x02 == value & 0x02) by (bit_vector);
    assert((value | 0xA4u8) & 0x01 == value & 0x01) by (bit_vector);
    let a = flag(am.int_mask, 0b0100_0000);
    let b = flag(am.hi_mask, 0b0001_0000);
    let c = flag(am.lo_mask, 0b0000_1000);
    let d = flag(am.tcrit_mask, 0b0000_0010);
    let e = flag(am.tach_mask, 0b0000_0001);
    assert((0xA4u8 | a | b | c | d | e) & 0xA4u8 == 0xA4u8) by (bit_vector);
}

} // verus!
