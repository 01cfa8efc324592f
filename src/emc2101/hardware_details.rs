/*
    Get information about the hardware.
*/
use crate::emc2101::hw::{self, last_read, read_op, DR};
use crate::traits::I2cBusDevice;
use vstd::prelude::*;

verus! {

/// name given to an identifier that is not known
pub const UNKNOWN: &'static str = "<unknown>";

// ------------------------------------------------------------------------
// hardware details
// ------------------------------------------------------------------------

/// who made the chip and which chip it is
#[derive(Clone, Copy, Debug, PartialEq, Eq)]
pub struct HardwareDetails {
    pub mid: u8,
    pub manufacturer: &'static str,
    pub pid: u8,
    pub product: &'static str,
    pub revision: u8,
}

/// The name of the manufacturer with id `mid`.
pub open spec fn manufacturer_name(mid: u8) -> Seq<char> {
    if mid == 0x5D {
        "SMSC"@
    } else {
        "<unknown>"@
    }
}

/// The name of the product with id `pid`.
pub open spec fn product_name(pid: u8) -> Seq<char> {
    if pid == 0x16 {
        "EMC2101"@
    } else if pid == 0x28 {
        "EMC2101-R"@
    } else {
        "<unknown>"@
    }
}

/// read the hardware details (manufacturer id, product id, revision, in
/// this order) and name manufacturer and product; an id that is not known
/// is named "<unknown>"
pub fn get_hardware_details<Ibd: I2cBusDevice>(ibd: &mut Ibd) -> (r: HardwareDetails)
    ensures
        final(ibd).history() == old(ibd).history() + seq![
            read_op(DR::Mid.addr(), r.mid),
            read_op(DR::Pid.addr(), r.pid),
            read_op(DR::Rev.addr(), r.revision),
        ],
        r.manufacturer@ == manufacturer_name(r.mid),
        r.product@ == product_name(r.pid),
{
    let mid = hw::get_manufacturer_id(ibd);
    let pid = hw::get_product_id(ibd);
    let rev = hw::get_product_revision(ibd);

    let man = identify_manufacturer(mid);
    let prd = identify_product(pid);

    HardwareDetails { mid, manufacturer: man, pid, product: prd, revision: rev }
}

/// a representation of the EMC2101's status register (0x02)
///
/// for an exhaustive description refer to the data sheet (section 6.4)
#[derive(Clone, Copy, Debug, PartialEq, Eq)]
pub struct StatusRegister {
    // the comment describes what happens if the value is set to True
    pub busy: bool,  // ADC is converting
    pub temp_int_hi: bool,  // internal temperature has met or exceeded the high limit
    pub eeprom: bool,  // EEPROM could not be found (EMC2101-R)
    pub temp_ext_hi: bool,  // external diode temperature has exceeded the high limit
    pub temp_ext_lo: bool,  // external diode temperature has fallen below the low limit
    pub diode_fault: bool,  // fault has occurred on the External Diode
    pub temp_crit: bool,  // external diode temperature has met or exceeded the TCRIT limit
    pub rpm_low: bool,  // tach count has exceeded the tach limit (RPM too low)
}

impl StatusRegister {
    /// The register value `value` read field by field (bit 7 down to bit 0).
    pub open spec fn decode(value: u8) -> StatusRegister {
        StatusRegister {
            busy: value & 0b1000_0000 != 0,
            temp_int_hi: value & 0b0100_0000 != 0,
            eeprom: value & 0b0010_0000 != 0,
            temp_ext_hi: value & 0b0001_0000 != 0,
            temp_ext_lo: value & 0b0000_1000 != 0,
            diode_fault: value & 0b0000_0100 != 0,
            temp_crit: value & 0b0000_0010 != 0,
            rpm_low: value & 0b0000_0001 != 0,
        }
    }
}

/// read the status register
pub fn get_status_register<Ibd: I2cBusDevice>(ibd: &mut Ibd) -> (r: StatusRegister)
    ensures
        ({
            let b = last_read(final(ibd).history());
            &&& final(ibd).history() == old(ibd).history().push(read_op(DR::Status.addr(), b))
            &&& r == StatusRegister::decode(b)
        }),
{
    let cfg = hw::get_status_register(ibd);

    StatusRegister {
        busy: (cfg & 0b1000_0000) != 0,
        temp_int_hi: (cfg & 0b0100_0000) != 0,
        eeprom: (cfg & 0b0010_0000) != 0,
        temp_ext_hi: (cfg & 0b0001_0000) != 0,
        temp_ext_lo: (cfg & 0b0000_1000) != 0,
        diode_fault: (cfg & 0b0000_0100) != 0,
        temp_crit: (cfg & 0b0000_0010) != 0,
        rpm_low: (cfg & 0b0000_0001) != 0,
    }
}

// ------------------------------------------------------------------------
// helper functions
// ------------------------------------------------------------------------

fn identify_manufacturer(mid: u8) -> (r: &'static str)
    ensures
        r@ == manufacturer_name(mid),
{
    match mid {
        0x5D => "SMSC",
        _ => UNKNOWN,
    }
}

fn identify_product(pid: u8) -> (r: &'static str)
    ensures
        r@ == product_name(pid),
{
    match pid {
        0x16 => "EMC2101",
        0x28 => "EMC2101-R",
        _ => UNKNOWN,
    }
}

} // verus!
