/*
    The conversion rate register defines the sampling rate for the internal
    and external temperature sensor.

    unit: samples per seconds
*/
use crate::emc2101::hw::{self, last_read, read_op, write_op, DR};
use crate::traits::I2cBusDevice;
use vstd::prelude::*;

verus! {

/// conversion rate (measured in 'samples per seconds')
#[derive(Clone, Copy, Debug, PartialEq, Eq)]
pub enum ConversionRate {
    Sps1o16,  // 0b0000: 1 sample every 16 seconds (1/16)
    Sps1o8,  // 0b0001: 1 sample every 8 seconds (1/8)
    Sps1o4,  // 0b0010: 1 sample every 4 seconds (1/4)
    Sps1o2,  // 0b0011: 1 sample every 2 seconds (1/2)
    Sps1,  // 0b0100: 1 samples per second
    Sps2,  // 0b0101: 2 samples per second
    Sps4,  // 0b0110: 4 samples per second
    Sps8,  // 0b0111: 8 samples per second
    Sps16,  // 0b1000: 16 samples per second (default)
    Sps32,  // 0b1001: 32 samples per second
    // all remaining values map to 32 samples per second
}

impl ConversionRate {
    /// The rate selected by register value `value`: codes 0 to 9 name one
    /// rate each, every higher code means 32 samples per second.
    pub open spec fn decode(value: u8) -> ConversionRate {
        if value == 0 {
            ConversionRate::Sps1o16
        } else if value == 1 {
            ConversionRate::Sps1o8
        } else if value == 2 {
            ConversionRate::Sps1o4
        } else if value == 3 {
            ConversionRate::Sps1o2
        } else if value == 4 {
            ConversionRate::Sps1
        } else if value == 5 {
            ConversionRate::Sps2
        } else if value == 6 {
            ConversionRate::Sps4
        } else if value == 7 {
            ConversionRate::Sps8
        } else if value == 8 {
            ConversionRate::Sps16
        } else {
            ConversionRate::Sps32
        }
    }

    /// The rate's code in the register.
    pub open spec fn spec_code(self) -> u8 {
        match self {
            ConversionRate::Sps1o16 => 0,
            ConversionRate::Sps1o8 => 1,
            ConversionRate::Sps1o4 => 2,
            ConversionRate::Sps1o2 => 3,
            ConversionRate::Sps1 => 4,
            ConversionRate::Sps2 => 5,
            ConversionRate::Sps4 => 6,
            ConversionRate::Sps8 => 7,
            ConversionRate::Sps16 => 8,
            ConversionRate::Sps32 => 9,
        }
    }

    /// The rate's code in the register.
    #[verifier::when_used_as_spec(spec_code)]
    pub fn code(self) -> (r: u8)
        ensures
            r == self.spec_code(),
    {
        match self {
            ConversionRate::Sps1o16 => 0,
            ConversionRate::Sps1o8 => 1,
            ConversionRate::Sps1o4 => 2,
            ConversionRate::Sps1o2 => 3,
            ConversionRate::Sps1 => 4,
            ConversionRate::Sps2 => 5,
            ConversionRate::Sps4 => 6,
            ConversionRate::Sps8 => 7,
            ConversionRate::Sps16 => 8,
            ConversionRate::Sps32 => 9,
        }
    }
}

impl From<u8> for ConversionRate {
    fn from(value: u8) -> (r: Self)
        ensures
            r == ConversionRate::decode(value),
    {
        match value {
            0b0000 => ConversionRate::Sps1o16,
            0b0001 => ConversionRate::Sps1o8,
            0b0010 => ConversionRate::Sps1o4,
            0b0011 => ConversionRate::Sps1o2,
            0b0100 => ConversionRate::Sps1,
            0b0101 => ConversionRate::Sps2,
            0b0110 => ConversionRate::Sps4,
            0b0111 => ConversionRate::Sps8,
            0b1000 => ConversionRate::Sps16,
            // all remaining values map to 32 samples per second
            _ => ConversionRate::Sps32,
        }
    }
}

impl vstd::std_specs::convert::FromSpecImpl<u8> for ConversionRate {
    open spec fn obeys_from_spec() -> bool {
        true
    }

    open spec fn from_spec(v: u8) -> Self {
        ConversionRate::decode(v)
    }
}

/// Each rate's code decodes back to that rate, and no two rates share a
/// code.
pub proof fn lemma_conversion_rate_codes(rate: ConversionRate, other: ConversionRate)
    ensures
        ConversionRate::decode(rate.code()) == rate,
        rate != other ==> rate.code() != other.code(),
{
}

/// read the temperature conversion rate register
pub fn get_conversion_rate<Ibd: I2cBusDevice>(ibd: &mut Ibd) -> (r: ConversionRate)
    ensures
        ({
            let b = last_read(final(ibd).history());
            &&& final(ibd).history() == old(ibd).history().push(read_op(DR::ConvRate.addr(), b))
            &&& r == ConversionRate::decode(b)
        }),
{
    ConversionRate::from(hw::get_conversion_rate(ibd))
}

/// change the temperature conversion rate register
pub fn set_conversion_rate<Ibd: I2cBusDevice>(ibd: &mut Ibd, value: ConversionRate)
    ensures
        final(ibd).history() == old(ibd).history().push(write_op(DR::ConvRate.addr(), value.code())),
{
    hw::set_conversion_rate(ibd, value.code());
}

} // verus!
