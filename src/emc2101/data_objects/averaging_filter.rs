/*
    EMC2101's averaging filter (0xBF)
*/
use vstd::prelude::*;

verus! {

// ------------------------------------------------------------------------
// Averaging Filter
// ------------------------------------------------------------------------

/// a representation of the EMC2101's averaging filter register (0xBF)
#[derive(Clone, Copy, Debug, PartialEq, Eq)]
pub struct AveragingFilter {
    pub filter_mode: AveragingFilterMode,
    pub pin_mode: AlertPinMode,
}

impl AveragingFilter {
    /// The register value `value` read field by field.
    pub open spec fn decode(value: u8) -> AveragingFilter {
        AveragingFilter {
            filter_mode: AveragingFilterMode::decode(value),
            pin_mode: AlertPinMode::decode(value),
        }
    }

    /// The register value: the filter level in bits 1-2, the pin mode in
    /// bit 0.
    pub open spec fn encode(self) -> u8 {
        self.filter_mode.bits() | self.pin_mode.bits()
    }
}

impl From<u8> for AveragingFilter {
    fn from(value: u8) -> (r: Self)
        ensures
            r == AveragingFilter::decode(value),
    {
        AveragingFilter {
            filter_mode: AveragingFilterMode::from(value),
            pin_mode: AlertPinMode::from(value),
        }
    }
}

impl vstd::std_specs::convert::FromSpecImpl<u8> for AveragingFilter {
    open spec fn obeys_from_spec() -> bool {
        true
    }

    open spec fn from_spec(v: u8) -> Self {
        AveragingFilter::decode(v)
    }
}

impl From<AveragingFilter> for u8 {
    fn from(af: AveragingFilter) -> (r: Self)
        ensures
            r == af.encode(),
    {
        af.filter_mode.bits() | af.pin_mode.bits()
    }
}

impl vstd::std_specs::convert::FromSpecImpl<AveragingFilter> for u8 {
    open spec fn obeys_from_spec() -> bool {
        true
    }

    open spec fn from_spec(v: AveragingFilter) -> Self {
        v.encode()
    }
}

/// A byte survives a decode followed by an encode in the bits the register
/// uses (0 to 2); the unused bits come back clear.
pub proof fn lemma_averaging_filter_round_trip(value: u8)
    ensures
        AveragingFilter::decode(value).encode() == value & 0b0000_0111,
{
    assert(value & 0x06 == 0 || value & 0x06 == 2 || value & 0x06 == 4 || value & 0x06 == 6)
        by (bit_vector);
    assert(AveragingFilterMode::decode(value).bits() == value & 0x06);
    assert(AlertPinMode::decode(value).bits() == value & 0x01) by {
        assert(value & 0x01 != 0 ==> value & 0x01 == 1) by (bit_vector);
    }
    assert((value & 0x06) | (value & 0x01) == value & 0x07) by (bit_vector);
}

// ------------------------------------------------------------------------
// Alert Pin Mode
// ------------------------------------------------------------------------

#[derive(Clone, Copy, Debug, PartialEq, Eq)]
pub enum AlertPinMode {
    Interrupt,  // bit 0 clear
    Comparator,  // bit 0 set
}

impl AlertPinMode {
    /// The mode selected by bit 0 of `value`.
    pub open spec fn decode(value: u8) -> AlertPinMode {
        if value & 0b0000_0001 != 0 {
            AlertPinMode::Comparator
        } else {
            AlertPinMode::Interrupt
        }
    }

    /// The mode's bit in the register.
    pub open spec fn spec_bits(self) -> u8 {
        match self {
            AlertPinMode::Interrupt => 0b0000_0000,
            AlertPinMode::Comparator => 0b0000_0001,
        }
    }

    /// The mode's bit in the register.
    #[verifier::when_used_as_spec(spec_bits)]
    pub fn bits(self) -> (r: u8)
        ensures
            r == self.spec_bits(),
    {
        match self {
            AlertPinMode::Interrupt => 0b0000_0000,
            AlertPinMode::Comparator => 0b0000_0001,
        }
    }
}

impl From<u8> for AlertPinMode {
    fn from(value: u8) -> (r: Self)
        ensures
            r == AlertPinMode::decode(value),
    {
        if value & 0b0000_0001 != 0 {
            AlertPinMode::Comparator
        } else {
            AlertPinMode::Interrupt
        }
    }
}

impl vstd::std_specs::convert::FromSpecImpl<u8> for AlertPinMode {
    open spec fn obeys_from_spec() -> bool {
        true
    }

    open spec fn from_spec(v: u8) -> Self {
        AlertPinMode::decode(v)
    }
}

// ------------------------------------------------------------------------
// Averaging Filter Mode
// ------------------------------------------------------------------------

#[derive(Clone, Copy, Debug, PartialEq, Eq)]
pub enum AveragingFilterMode {
    Disabled,  // 0b0000_0000 (default)
    Level1,  // 0b0000_0010
    Level2,  // 0b0000_0100
    Level3,  // 0b0000_0110
}

impl AveragingFilterMode {
    /// The level selected by bits 1-2 of `value`.
    pub open spec fn decode(value: u8) -> AveragingFilterMode {
        let bits = value & 0b0000_0110;
        if bits == 0b0000_0010 {
            AveragingFilterMode::Level1
        } else if bits == 0b0000_0100 {
            AveragingFilterMode::Level2
        } else if bits == 0b0000_0110 {
            AveragingFilterMode::Level3
        } else {
            AveragingFilterMode::Disabled
        }
    }

    /// The level's bits in the register.
    pub open spec fn spec_bits(self) -> u8 {
        match self {
            AveragingFilterMode::Disabled => 0b0000_0000,
            AveragingFilterMode::Level1 => 0b0000_0010,
            AveragingFilterMode::Level2 => 0b0000_0100,
            AveragingFilterMode::Level3 => 0b0000_0110,
        }
    }

    /// The level's bits in the register.
    #[verifier::when_used_as_spec(spec_bits)]
    pub fn bits(self) -> (r: u8)
        ensures
            r == self.spec_bits(),
    {
        match self {
            AveragingFilterMode::Disabled => 0b0000_0000,
            AveragingFilterMode::Level1 => 0b0000_0010,
            AveragingFilterMode::Level2 => 0b0000_0100,
            AveragingFilterMode::Level3 => 0b0000_0110,
        }
    }
}

impl From<u8> for AveragingFilterMode {
    fn from(value: u8) -> (r: Self)
        ensures
            r == AveragingFilterMode::decode(value),
    {
        let bits = value & 0b0000_0110;
        if bits == 0b0000_0010 {
            AveragingFilterMode::Level1
        } else if bits == 0b0000_0100 {
            AveragingFilterMode::Level2
        } else if bits == 0b0000_0110 {
            AveragingFilterMode::Level3
        } else {
            AveragingFilterMode::Disabled
        }
    }
}

impl vstd::std_specs::convert::FromSpecImpl<u8> for AveragingFilterMode {
    open spec fn obeys_from_spec() -> bool {
        true
    }

    open spec fn from_spec(v: u8) -> Self {
        AveragingFilterMode::decode(v)
    }
}

} // verus!
