/*
    EMC2101's beta compensation register (0x18)
*/
use vstd::prelude::*;

verus! {

// ------------------------------------------------------------------------
// Beta Compensation
// ------------------------------------------------------------------------

/// Please note:
/// - The mode must be set to 'Disabled' when using a thermal terminal
///   diode or a diode-connected transistor (e.g. 2N3904 / 2N3906).
/// - In modes 'Automatic' and 'Disabled' the factor's value is ignored.
///
/// See data sheet section 5.5 for details.
#[derive(Clone, Copy, Debug, PartialEq, Eq)]
pub struct BetaCompensation {
    pub mode: BetaCompensationMode,
    pub factor: u8,
}

impl BetaCompensation {
    /// The register value `value` read as a mode and a factor: 0x08 and
    /// above mean automatic, 0x07 disabled, anything lower is a manual factor.
    pub open spec fn decode(value: u8) -> BetaCompensation {
        if value >= 0x08 {
            BetaCompensation { mode: BetaCompensationMode::Automatic, factor: 0 }
        } else if value == 0x07 {
            BetaCompensation { mode: BetaCompensationMode::Disabled, factor: 0 }
        } else {
            BetaCompensation { mode: BetaCompensationMode::Manual, factor: value & 0b0000_0111 }
        }
    }

    /// The register value: 0x08 for automatic, 0x07 for disabled, the factor
    /// clamped to 0..=6 for manual.
    pub open spec fn encode(self) -> u8 {
        match self.mode {
            BetaCompensationMode::Automatic => 0x08,
            BetaCompensationMode::Disabled => 0x07,
            BetaCompensationMode::Manual => if self.factor > 0x06 {
                0x06
            } else {
                self.factor
            },
        }
    }
}

impl From<u8> for BetaCompensation {
    fn from(value: u8) -> (r: Self)
        ensures
            r == BetaCompensation::decode(value),
    {
        let clamped = if value > 0x08 {
            0x08
        } else {
            value
        };
        match clamped {
            0x08 => BetaCompensation { mode: BetaCompensationMode::Automatic, factor: 0b0000_0000 },
            0x07 => BetaCompensation { mode: BetaCompensationMode::Disabled, factor: 0b0000_0000 },
            _ => BetaCompensation {
                mode: BetaCompensationMode::Manual,
                factor: value & 0b0000_0111,
            },
        }
    }
}

impl vstd::std_specs::convert::FromSpecImpl<u8> for BetaCompensation {
    open spec fn obeys_from_spec() -> bool {
        true
    }

    open spec fn from_spec(v: u8) -> Self {
        BetaCompensation::decode(v)
    }
}

impl From<BetaCompensation> for u8 {
    fn from(bcf: BetaCompensation) -> (r: Self)
        ensures
            r == bcf.encode(),
    {
        match bcf.mode {
            BetaCompensationMode::Automatic => 0x08,
            BetaCompensationMode::Disabled => 0x07,
            BetaCompensationMode::Manual => if bcf.factor > 0x06 {
                0x06
            } else {
                bcf.factor
            },
        }
    }
}

impl vstd::std_specs::convert::FromSpecImpl<BetaCompensation> for u8 {
    open spec fn obeys_from_spec() -> bool {
        true
    }

    open spec fn from_spec(v: BetaCompensation) -> Self {
        v.encode()
    }
}

// ------------------------------------------------------------------------
// Beta Compensation Mode
// ------------------------------------------------------------------------

#[derive(Clone, Copy, Debug, PartialEq, Eq)]
pub enum BetaCompensationMode {
    Automatic,
    Manual,
    Disabled,
}

} // verus!
