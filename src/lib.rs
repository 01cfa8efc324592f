//! Drivers for I²C bus devices, built on a byte-level bus capability.
//!
//! The fan controller driver in [`emc2101`] turns raw register bytes into
//! typed values and back; all bus traffic goes through [`I2cBusDevice`].

mod traits;

pub use traits::{
    lemma_reads_stored_prefix, op_value, read_values, reads_stored, register_reads,
    register_writes, registers_after, BusOp, I2cBusDevice,
};

pub mod emc2101;
