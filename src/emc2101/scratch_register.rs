/*
    The EMC2101 and EMC2101-R provide two scratch registers that are never
    used by the hardware itself.

    These registers are non-volatile and can be used to store arbitrary
    data.
*/
use crate::emc2101::hw::{self, read_op, write_op, DR};
use crate::traits::I2cBusDevice;
use vstd::prelude::*;

verus! {

/// get value of scratch register #1
///
/// (this register is not used by the chip in any way)
pub fn get_scratch_register1<Ibd: I2cBusDevice>(ibd: &mut Ibd) -> (r: u8)
    ensures
        final(ibd).history() == old(ibd).history().push(read_op(DR::Scratch1.addr(), r)),
{
    hw::get_scratch_register1(ibd)
}

/// set value of scratch register #1
///
/// (this register is not used by the chip in any way)
pub fn set_scratch_register1<Ibd: I2cBusDevice>(ibd: &mut Ibd, value: u8)
    ensures
        final(ibd).history() == old(ibd).history().push(write_op(DR::Scratch1.addr(), value)),
{
    hw::set_scratch_register1(ibd, value)
}

/// get value of scratch register #2
///
/// (this register is not used by the chip in any way)
pub fn get_scratch_register2<Ibd: I2cBusDevice>(ibd: &mut Ibd) -> (r: u8)
    ensures
        final(ibd).history() == old(ibd).history().push(read_op(DR::Scratch2.addr(), r)),
{
    hw::get_scratch_register2(ibd)
}

/// set value of scratch register #2
///
/// (this register is not used by the chip in any way)
pub fn set_scratch_register2<Ibd: I2cBusDevice>(ibd: &mut Ibd, value: u8)
    ensures
        final(ibd).history() == old(ibd).history().push(write_op(DR::Scratch2.addr(), value)),
{
    hw::set_scratch_register2(ibd, value)
}

} // verus!
