/*
    EMC2101's spin up behavior (0x4B)
*/
use super::{flag, flag_bits};
use vstd::prelude::*;

verus! {

// ------------------------------------------------------------------------
// Spin Up Behavior
// ------------------------------------------------------------------------

/// a representation of the EMC2101's spin up behavior register (0x4B)
#[derive(Clone, Copy, Debug, PartialEq, Eq)]
pub struct SpinUpBehavior {
    pub fast_mode: bool,
    pub strength: SpinUpStrength,
    pub duration: SpinUpDuration,
}

impl SpinUpBehavior {
    /// The register value `value` read field by field: fast mode in bit 5,
    /// the strength in bits 3-4, the duration in bits 0-2.
    pub open spec fn decode(value: u8) -> SpinUpBehavior {
        SpinUpBehavior {
            fast_mode: value & 0b0010_0000 != 0,
            strength: SpinUpStrength::decode(value),
            duration: SpinUpDuration::decode(value),
        }
    }

    /// The register value with each field in its bits.
    pub open spec fn encode(self) -> u8 {
        flag(self.fast_mode, 0b0010_0000) | self.strength.bits() | self.duration.bits()
    }

    /// The register value `value` read field by field.
    pub fn from_register(value: u8) -> (r: SpinUpBehavior)
        ensures
            r == SpinUpBehavior::decode(value),
    {
        SpinUpBehavior {
            fast_mode: (value & 0b0010_0000) != 0,
            strength: SpinUpStrength::from(value),
            duration: SpinUpDuration::from(value),
        }
    }

    /// The register value with each field in its bits.
    pub fn to_register(&self) -> (r: u8)
        ensures
            r == self.encode(),
    {
        flag_bits(self.fast_mode, 0b0010_0000) | self.strength.bits() | self.duration.bits()
    }
}

/// A byte survives a decode followed by an encode in the bits the register
/// uses (0 to 5); the unused bits come back clear.
pub proof fn lemma_spin_up_behavior_round_trip(value: u8)
    ensures
        SpinUpBehavior::decode(value).encode() == value & 0b0011_1111,
{
    assert(value & 0x18 == 0 || value & 0x18 == 0x08 || value & 0x18 == 0x10 || value & 0x18
        == 0x18) by (bit_vector);
    assert(SpinUpStrength::decode(value).bits() == value & 0x18);
    assert(SpinUpDuration::decode(value).bits() == value & 0x07) by {
        assert(value & 0x07 <= 7) by (bit_vector);
    }
    assert(flag(value & 0x20 != 0, 0x20) == value & 0x20) by {
        assert(value & 0x20 != 0 ==> value & 0x20 == 0x20) by (bit_vector);
    }
    assert((value & 0x20) | (value & 0x18) | (value & 0x07) == value & 0x3F) by (bit_vector);
}

// ------------------------------------------------------------------------
// Spin Up Strength
// ------------------------------------------------------------------------

#[derive(Clone, Copy, Debug, PartialEq, Eq)]
pub enum SpinUpStrength {
    Bypass,  // 0b0000_0000
    Half,  // 0b0000_1000
    ThreeQuarter,  // 0b0001_0000
    Full,  // 0b0001_1000
}

impl SpinUpStrength {
    /// The strength selected by bits 3-4 of `value`.
    pub open spec fn decode(value: u8) -> SpinUpStrength {
        let bits = value & 0b0001_1000;
        if bits == 0b0000_1000 {
            SpinUpStrength::Half
        } else if bits == 0b0001_0000 {
            SpinUpStrength::ThreeQuarter
        } else if bits == 0b0001_1000 {
            SpinUpStrength::Full
        } else {
            SpinUpStrength::Bypass
        }
    }

    /// The strength's bits in the register.
    pub open spec fn spec_bits(self) -> u8 {
        match self {
            SpinUpStrength::Bypass => 0b0000_0000,
            SpinUpStrength::Half => 0b0000_1000,
            SpinUpStrength::ThreeQuarter => 0b0001_0000,
            SpinUpStrength::Full => 0b0001_1000,
        }
    }

    /// The strength's bits in the register.
    #[verifier::when_used_as_spec(spec_bits)]
    pub fn bits(self) -> (r: u8)
        ensures
            r == self.spec_bits(),
    {
        match self {
            SpinUpStrength::Bypass => 0b0000_0000,
            SpinUpStrength::Half => 0b0000_1000,
            SpinUpStrength::ThreeQuarter => 0b0001_0000,
            SpinUpStrength::Full => 0b0001_1000,
        }
    }
}

impl From<u8> for SpinUpStrength {
    fn from(value: u8) -> (r: Self)
        ensures
            r == SpinUpStrength::decode(value),
    {
        let bits = value & 0b0001_1000;
        if bits == 0b0000_1000 {
            SpinUpStrength::Half
        } else if bits == 0b0001_0000 {
            SpinUpStrength::ThreeQuarter
        } else if bits == 0b0001_1000 {
            SpinUpStrength::Full
        } else {
            SpinUpStrength::Bypass
        }
    }
}

impl vstd::std_specs::convert::FromSpecImpl<u8> for SpinUpStrength {
    open spec fn obeys_from_spec() -> bool {
        true
    }

    open spec fn from_spec(v: u8) -> Self {
        SpinUpStrength::decode(v)
    }
}

// ------------------------------------------------------------------------
// Spin Up Duration
// ------------------------------------------------------------------------

#[derive(Clone, Copy, Debug, PartialEq, Eq)]
pub enum SpinUpDuration {
    Bypass,  // 0b0000_0000
    Ms0050,  // 0b0000_0001
    Ms0100,  // 0b0000_0010
    Ms0200,  // 0b0000_0011
    Ms0400,  // 0b0000_0100
    Ms0800,  // 0b0000_0101
    Ms1600,  // 0b0000_0110
    Ms3200,  // 0b0000_0111
}

impl SpinUpDuration {
    /// The duration selected by bits 0-2 of `value`.
    pub open spec fn decode(value: u8) -> SpinUpDuration {
        let bits = value & 0b0000_0111;
        if bits == 1 {
            SpinUpDuration::Ms0050
        } else if bits == 2 {
            SpinUpDuration::Ms0100
        } else if bits == 3 {
            SpinUpDuration::Ms0200
        } else if bits == 4 {
            SpinUpDuration::Ms0400
        } else if bits == 5 {
            SpinUpDuration::Ms0800
        } else if bits == 6 {
            SpinUpDuration::Ms1600
        } else if bits == 7 {
            SpinUpDuration::Ms3200
        } else {
            SpinUpDuration::Bypass
        }
    }

    /// The duration's bits in the register.
    pub open spec fn spec_bits(self) -> u8 {
        match self {
            SpinUpDuration::Bypass => 0,
            SpinUpDuration::Ms0050 => 1,
            SpinUpDuration::Ms0100 => 2,
            SpinUpDuration::Ms0200 => 3,
            SpinUpDuration::Ms0400 => 4,
            SpinUpDuration::Ms0800 => 5,
            SpinUpDuration::Ms1600 => 6,
            SpinUpDuration::Ms3200 => 7,
        }
    }

    /// The duration's bits in the register.
    #[verifier::when_used_as_spec(spec_bits)]
    pub fn bits(self) -> (r: u8)
        ensures
            r == self.spec_bits(),
    {
        match self {
            SpinUpDuration::Bypass => 0,
            SpinUpDuration::Ms0050 => 1,
            SpinUpDuration::Ms0100 => 2,
            SpinUpDuration::Ms0200 => 3,
            SpinUpDuration::Ms0400 => 4,
            SpinUpDuration::Ms0800 => 5,
            SpinUpDuration::Ms1600 => 6,
            SpinUpDuration::Ms3200 => 7,
        }
    }
}

impl From<u8> for SpinUpDuration {
    fn from(value: u8) -> (r: Self)
        ensures
            r == SpinUpDuration::decode(value),
    {
        let bits = value & 0b0000_0111;
        if bits == 1 {
            SpinUpDuration::Ms0050
        } else if bits == 2 {
            SpinUpDuration::Ms0100
        } else if bits == 3 {
            SpinUpDuration::Ms0200
        } else if bits == 4 {
            SpinUpDuration::Ms0400
        } else if bits == 5 {
            SpinUpDuration::Ms0800
        } else if bits == 6 {
            SpinUpDuration::Ms1600
        } else if bits == 7 {
            SpinUpDuration::Ms3200
        } else {
            SpinUpDuration::Bypass
        }
    }
}

impl vstd::std_specs::convert::FromSpecImpl<u8> for SpinUpDuration {
    open spec fn obeys_from_spec() -> bool {
        true
    }

    open spec fn from_spec(v: u8) -> Self {
        SpinUpDuration::decode(v)
    }
}

} // verus!
