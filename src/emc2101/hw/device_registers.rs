//
// device registers
// (described in section 5 of the data sheet)
//
use vstd::prelude::*;

verus! {

/// The named registers of the chip.
#[derive(Clone, Copy, Debug, PartialEq, Eq)]
pub enum DR {
    Its,  // internal sensor - temperature
    EtsMsb,  // external diode - temperature (high byte)
    Status,  // status
    Cfg,  // device config register
    ConvRate,  // conversion rate
    ItsHi,  // internal sensor - temperature high limit
    EtsHiMsb,  // external diode - temperature high limit (high byte)
    EtsLoMsb,  // external diode - temperature low limit (high byte)
    EtsFrc,  // force external temperature reading
    OneShot,  // one shot
    EtsLsb,  // external temperature sensor (low byte)
    Scratch1,  // scratchpad #1
    Scratch2,  // scratchpad #2
    EtsHiLsb,  // external diode - temperature high limit (low byte)
    EtsLoLsb,  // external diode - temperature low limit (low byte)
    AlrtMsk,  // alert mask
    EtsDif,  // external diode - ideality factor
    EtsBcf,  // external diode - beta compensation factor
    CritTemp,  // critical temperature limit
    CritHyst,  // critical temperature hysteresis
    TachLsb,  // tach reading (low byte)
    TachMsb,  // tach reading (high byte)
    TachLoLsb,  // rpm low limit (low byte)
    TachLoMsb,  // rpm low limit (high byte)
    FanCfg,  // fan configuration
    FanSpinUp,  // fan spin-up configuration
    FanSpeed,  // fan speed setting
    PwmFrq,  // pwm frequency
    PwmFrqDiv,  // pwm frequency divider
    LutHyst,  // lookup table hysteresis
    LutBase,  // lookup table base address (0x50..0x5F)
    AvgFlt,  // averaging filter
    Pid,  // product id
    Mid,  // manufacturer id
    Rev,  // product revision
}

impl DR {
    /// The register's address on the chip.
    pub open spec fn spec_addr(self) -> u8 {
        match self {
            DR::Its => 0x00,
            DR::EtsMsb => 0x01,
            DR::Status => 0x02,
            DR::Cfg => 0x03,
            DR::ConvRate => 0x04,
            DR::ItsHi => 0x05,
            DR::EtsHiMsb => 0x07,
            DR::EtsLoMsb => 0x08,
            DR::EtsFrc => 0x0C,
            DR::OneShot => 0x0F,
            DR::EtsLsb => 0x10,
            DR::Scratch1 => 0x11,
            DR::Scratch2 => 0x12,
            DR::EtsHiLsb => 0x13,
            DR::EtsLoLsb => 0x14,
            DR::AlrtMsk => 0x16,
            DR::EtsDif => 0x17,
            DR::EtsBcf => 0x18,
            DR::CritTemp => 0x19,
            DR::CritHyst => 0x21,
            DR::TachLsb => 0x46,
            DR::TachMsb => 0x47,
            DR::TachLoLsb => 0x48,
            DR::TachLoMsb => 0x49,
            DR::FanCfg => 0x4A,
            DR::FanSpinUp => 0x4B,
            DR::FanSpeed => 0x4C,
            DR::PwmFrq => 0x4D,
            DR::PwmFrqDiv => 0x4E,
            DR::LutHyst => 0x4F,
            DR::LutBase => 0x50,
            DR::AvgFlt => 0xBF,
            DR::Pid => 0xFD,
            DR::Mid => 0xFE,
            DR::Rev => 0xFF,
        }
    }

    /// The register's address on the chip.
    #[verifier::when_used_as_spec(spec_addr)]
    pub fn addr(self) -> (r: u8)
        ensures
            r == self.spec_addr(),
    {
        match self {
            DR::Its => 0x00,
            DR::EtsMsb => 0x01,
            DR::Status => 0x02,
            DR::Cfg => 0x03,
            DR::ConvRate => 0x04,
            DR::ItsHi => 0x05,
            DR::EtsHiMsb => 0x07,
            DR::EtsLoMsb => 0x08,
            DR::EtsFrc => 0x0C,
            DR::OneShot => 0x0F,
            DR::EtsLsb => 0x10,
            DR::Scratch1 => 0x11,
            DR::Scratch2 => 0x12,
            DR::EtsHiLsb => 0x13,
            DR::EtsLoLsb => 0x14,
            DR::AlrtMsk => 0x16,
            DR::EtsDif => 0x17,
            DR::EtsBcf => 0x18,
            DR::CritTemp => 0x19,
            DR::CritHyst => 0x21,
            DR::TachLsb => 0x46,
            DR::TachMsb => 0x47,
            DR::TachLoLsb => 0x48,
            DR::TachLoMsb => 0x49,
            DR::FanCfg => 0x4A,
            DR::FanSpinUp => 0x4B,
            DR::FanSpeed => 0x4C,
            DR::PwmFrq => 0x4D,
            DR::PwmFrqDiv => 0x4E,
            DR::LutHyst => 0x4F,
            DR::LutBase => 0x50,
            DR::AvgFlt => 0xBF,
            DR::Pid => 0xFD,
            DR::Mid => 0xFE,
            DR::Rev => 0xFF,
        }
    }
}

} // verus!
