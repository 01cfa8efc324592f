use vstd::prelude::*;

verus! {

/// One transaction on the bus, as recorded in a device's history.
pub enum BusOp {
    /// a plain byte read from device `da`; `result` is `None` when it failed
    ReadByte { da: u8, result: Option<u8> },
    /// a plain byte sent to device `da`
    WriteByte { da: u8, byte: u8 },
    /// a raw buffer sent to device `da`
    WriteBytes { da: u8, bytes: Seq<u8> },
    /// register `dr` of device `da` was read and held `value`
    ReadRegister { da: u8, dr: u8, value: u8 },
    /// `value` was written to register `dr` of device `da`
    WriteRegister { da: u8, dr: u8, value: u8 },
    /// the caller waited `ms` milliseconds
    Sleep { ms: u32 },
}

/// The register reads of `regs`, in order, that returned `values`.
pub open spec fn register_reads(da: u8, regs: Seq<u8>, values: Seq<u8>) -> Seq<BusOp>
    recommends
        regs.len() == values.len(),
{
    Seq::new(regs.len(), |i: int| BusOp::ReadRegister { da, dr: regs[i], value: values[i] })
}

/// The register writes of `pairs` (register, value), in order.
pub open spec fn register_writes(da: u8, pairs: Seq<[u8; 2]>) -> Seq<BusOp> {
    Seq::new(pairs.len(), |i: int| BusOp::WriteRegister { da, dr: pairs[i]@[0], value: pairs[i]@[1] })
}

/// The value carried by a register read or write (0 for any other
/// transaction).
pub open spec fn op_value(op: BusOp) -> u8 {
    match op {
        BusOp::ReadRegister { value, .. } => value,
        BusOp::WriteRegister { value, .. } => value,
        _ => 0,
    }
}

/// The value carried by each register read or write of `ops`.
pub open spec fn read_values(ops: Seq<BusOp>) -> Seq<u8> {
    ops.map_values(|op: BusOp| op_value(op))
}

/// The registers of device `da` after `ops`, for a device whose registers
/// hold what was last written to them and started out as `init`.
pub open spec fn registers_after(da: u8, init: spec_fn(u8) -> u8, ops: Seq<BusOp>) -> spec_fn(
    u8,
) -> u8
    decreases ops.len(),
{
    if ops.len() == 0 {
        init
    } else {
        let before = registers_after(da, init, ops.drop_last());
        match ops.last() {
            BusOp::WriteRegister { da: d, dr, value } => if d == da {
                |r: u8| if r == dr { value } else { before(r) }
            } else {
                before
            },
            _ => before,
        }
    }
}

/// Whether each register read of device `da` in `ops` returned what the
/// register held at that point, for a device whose registers hold what was
/// last written to them and started out as `init`.
pub open spec fn reads_stored(da: u8, init: spec_fn(u8) -> u8, ops: Seq<BusOp>) -> bool
    decreases ops.len(),
{
    ops.len() == 0 || (reads_stored(da, init, ops.drop_last()) && match ops.last() {
        BusOp::ReadRegister { da: d, dr, value } => d == da ==> registers_after(
            da,
            init,
            ops.drop_last(),
        )(dr) == value,
        _ => true,
    })
}

/// The reads of a prefix of a history found what the registers held, when
/// those of the whole history did.
pub proof fn lemma_reads_stored_prefix(da: u8, init: spec_fn(u8) -> u8, ops: Seq<BusOp>, n: int)
    requires
        reads_stored(da, init, ops),
        0 <= n <= ops.len(),
    ensures
        reads_stored(da, init, ops.take(n)),
    decreases ops.len() - n,
{
    if n < ops.len() {
        lemma_reads_stored_prefix(da, init, ops, n + 1);
        assert(ops.take(n + 1).drop_last() =~= ops.take(n));
    } else {
        assert(ops.take(n) =~= ops);
    }
}

/// Read data from and write data to an I²C device.
///
/// Implementations supply the transport (real hardware or an in-memory
/// double). Each method appends exactly the transaction it performs to
/// `history`, so callers can state which registers they touch and in which
/// order.
pub trait I2cBusDevice {
    /// Every transaction performed through this device so far, oldest first.
    ///
    /// The contracts of the methods below say how each call extends it; they
    /// are what every implementation must honour. The default body only
    /// lets implementations outside verified code, which cannot state a
    /// history, compile: callers in this library are generic over the
    /// implementation and never see it.
    closed spec fn history(&self) -> Seq<BusOp> {
        Seq::empty()
    }

    /// read a single byte
    fn read_byte(&mut self, da: u8) -> (r: Result<u8, &'static str>)
        ensures
            final(self).history() == old(self).history().push(
                BusOp::ReadByte { da, result: match r { Ok(v) => Some(v), Err(_) => None } },
            ),
    ;

    /// send a single byte
    ///
    /// this function is useful for devices that combine the 'register' and
    /// the 'data' into a single byte
    fn write_byte(&mut self, da: u8, byte: u8)
        ensures
            final(self).history() == old(self).history().push(BusOp::WriteByte { da, byte }),
    ;

    /// send a raw buffer
    fn write_bytes(&mut self, da: u8, bytes: &[u8])
        ensures
            final(self).history() == old(self).history().push(
                BusOp::WriteBytes { da, bytes: bytes@ },
            ),
    ;

    /// read a single byte from device register 'dr'
    fn read_register_as_byte(&mut self, da: u8, dr: u8) -> (r: u8)
        ensures
            final(self).history() == old(self).history().push(
                BusOp::ReadRegister { da, dr, value: r },
            ),
    ;

    /// write a single byte to device register 'dr'
    fn write_register_as_byte(&mut self, da: u8, dr: u8, byte: u8)
        ensures
            final(self).history() == old(self).history().push(
                BusOp::WriteRegister { da, dr, value: byte },
            ),
    ;

    /// read multiple independent registers in the exact order provided
    ///
    /// returns the register's values in exactly the same order
    fn read_multibyte_register_as_u8<const N: usize>(&mut self, da: u8, dr: [u8; N]) -> (r: [u8; N])
        ensures
            final(self).history() == old(self).history() + register_reads(da, dr@, r@),
    ;

    /// write independent registers in the exact order provided
    fn write_multibyte_register_as_u8<const N: usize>(&mut self, da: u8, values: [[u8; 2]; N])
        ensures
            final(self).history() == old(self).history() + register_writes(da, values@),
    ;

    /// wait for the given time (the delay is hardware-dependent and must be
    /// provided by the implementation)
    fn sleep_ms(&mut self, milliseconds: u32)
        ensures
            final(self).history() == old(self).history().push(BusOp::Sleep { ms: milliseconds }),
    ;
}

} // verus!
