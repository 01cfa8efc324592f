/*
    data objects: the chip's bitfield registers as typed values
*/
mod alert_mask;
mod averaging_filter;
mod beta_compensation;
mod config_register;
mod spin_up_behavior;

pub use alert_mask::{
    lemma_alert_mask_always_set, lemma_alert_mask_round_trip, AlertMask, ALERT_MASK_ALWAYS_SET,
};
pub use averaging_filter::{
    lemma_averaging_filter_round_trip, AlertPinMode, AveragingFilter, AveragingFilterMode,
};
pub use beta_compensation::{BetaCompensation, BetaCompensationMode};
pub use config_register::{lemma_config_register_round_trip, ConfigRegister};
pub use spin_up_behavior::{
    lemma_spin_up_behavior_round_trip, SpinUpBehavior, SpinUpDuration, SpinUpStrength,
};

use vstd::prelude::*;

verus! {

/// `mask` when `on` holds, else no bit.
pub open spec fn flag(on: bool, mask: u8) -> u8 {
    if on {
        mask
    } else {
        0
    }
}

/// `mask` when `on` holds, else no bit.
pub fn flag_bits(on: bool, mask: u8) -> (r: u8)
    ensures
        r == flag(on, mask),
{
    if on {
        mask
    } else {
        0
    }
}

} // verus!
