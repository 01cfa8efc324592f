/*
    lookup table
*/
use crate::emc2101::hw::{
    self, clamp, clamp_u8, lut_reads, lut_speed_reg, lut_temp_reg, lut_writes, read_op, write_op,
    DEVICE_ADDRESS, DR,
};
use crate::traits::{lemma_reads_stored_prefix, reads_stored, registers_after, BusOp, I2cBusDevice};
use vstd::prelude::*;

verus! {

/// read the lookup table hysteresis register
/// - expected range: 0°C ≤ x ≤ 31°C
/// - default: 4°C
pub fn get_lookup_table_hysteresis<Ibd: I2cBusDevice>(ibd: &mut Ibd) -> (r: u8)
    ensures
        final(ibd).history() == old(ibd).history().push(read_op(DR::LutHyst.addr(), r)),
{
    hw::get_lookup_table_hysteresis(ibd)
}

/// change the lookup table hysteresis register
/// - the value is clamped to 0°C ≤ x ≤ 31°C
pub fn set_lookup_table_hysteresis<Ibd: I2cBusDevice>(ibd: &mut Ibd, value: u8)
    ensures
        final(ibd).history() == old(ibd).history().push(
            write_op(DR::LutHyst.addr(), clamp_u8(value, 0, 31)),
        ),
{
    let value_clamped = clamp(value, 0, 31);
    hw::set_lookup_table_hysteresis(ibd, value_clamped);
}

/// read the lookup table, entry by entry (temperature, then fan speed)
/// - expected temperature range: 0°C ≤ x ≤ 85°C
/// - expected fan speed range: 0x00 ≤ x ≤ 0x63
pub fn get_lookup_table<Ibd: I2cBusDevice>(ibd: &mut Ibd) -> (r: [(u8, u8); 8])
    ensures
        final(ibd).history() == old(ibd).history() + lut_reads(r@),
{
    hw::get_lookup_table(ibd)
}

/// The lookup table entry (temperature, fan speed) as it is stored: the
/// temperature clamped to 0..=85, the fan speed to 0x00..=0x63.
pub open spec fn clamp_lut_entry(entry: (u8, u8)) -> (u8, u8) {
    (clamp_u8(entry.0, 0, 85), clamp_u8(entry.1, 0x00, 0x63))
}

/// The lookup table as it is stored, entry by entry.
pub open spec fn clamp_lut(lut: Seq<(u8, u8)>) -> Seq<(u8, u8)> {
    lut.map_values(|e: (u8, u8)| clamp_lut_entry(e))
}

/// change the lookup table
/// - each temperature is clamped to 0°C ≤ x ≤ 85°C, each fan speed to
///   0x00 ≤ x ≤ 0x63
/// - the entries are written in order, temperature before fan speed
/// - the table is only writable while it is disabled in the fan
///   configuration register: the caller must disable it first
pub fn set_lookup_table<Ibd: I2cBusDevice>(ibd: &mut Ibd, lut: [(u8, u8); 8])
    ensures
        final(ibd).history() == old(ibd).history() + lut_writes(clamp_lut(lut@)),
{
    let mut lut_clamped: [(u8, u8); 8] = [(0x00, 0x00); 8];
    let mut i: usize = 0;
    while i < 8
        invariant
            0 <= i <= 8,
            forall|j: int| 0 <= j < i ==> lut_clamped@[j] == clamp_lut_entry(lut@[j]),
        decreases 8 - i,
    {
        lut_clamped[i] = (clamp(lut[i].0, 0, 85), clamp(lut[i].1, 0x00, 0x63));
        i += 1;
    }
    proof {
        assert(lut_clamped@ =~= clamp_lut(lut@));
    }
    hw::set_lookup_table(ibd, lut_clamped);
}

/// The writes of a lookup table are two per entry: entry `i`'s temperature
/// to its temperature register, then its fan speed to its speed register.
pub proof fn lemma_lut_writes(lut: Seq<(u8, u8)>, i: int)
    requires
        0 <= i < lut.len(),
    ensures
        lut_writes(lut).len() == 2 * lut.len(),
        lut_writes(lut)[2 * i] == write_op(lut_temp_reg(i), lut[i].0),
        lut_writes(lut)[2 * i + 1] == write_op(lut_speed_reg(i), lut[i].1),
    decreases lut.len(),
{
    lemma_lut_writes_len(lut);
    let n = lut.len() - 1;
    if i < n {
        lemma_lut_writes(lut.drop_last(), i);
    }
}

/// Two writes per lookup table entry.
proof fn lemma_lut_writes_len(lut: Seq<(u8, u8)>)
    ensures
        lut_writes(lut).len() == 2 * lut.len(),
    decreases lut.len(),
{
    if lut.len() > 0 {
        lemma_lut_writes_len(lut.drop_last());
    }
}

/// Writing an entry of temperature 200 and fan speed 255, at any index,
/// stores it as (85, 0x63): both values are clamped to their ranges.
pub proof fn lemma_lut_clamp(lut: [(u8, u8); 8], i: int)
    requires
        0 <= i < 8,
        lut@[i] == (200u8, 255u8),
    ensures
        clamp_lut(lut@)[i] == (85u8, 0x63u8),
        lut_writes(clamp_lut(lut@))[2 * i] == write_op(lut_temp_reg(i), 85),
        lut_writes(clamp_lut(lut@))[2 * i + 1] == write_op(lut_speed_reg(i), 0x63),
{
    lemma_lut_writes(clamp_lut(lut@), i);
}

/// On a device whose registers hold what was last written to them, reading
/// the lookup table right after writing it gives back the table as it was
/// stored: each entry clamped to its ranges.
pub proof fn lemma_lut_read_back(init: spec_fn(u8) -> u8, lut: Seq<(u8, u8)>, read: Seq<(u8, u8)>)
    requires
        lut.len() == 8,
        read.len() == 8,
        reads_stored(DEVICE_ADDRESS, init, lut_writes(clamp_lut(lut)) + lut_reads(read)),
    ensures
        read == clamp_lut(lut),
{
    let stored = clamp_lut(lut);
    let w = lut_writes(stored);
    let ops = w + lut_reads(read);
    lemma_lut_reads_len(read);
    assert forall|i: int| 0 <= i < 8 implies read[i] == stored[i] by {
        let before = w + lut_reads(read.take(i));
        lemma_lut_reads_len(read.take(i));
        let temp_read = read_op(lut_temp_reg(i), read[i].0);
        let speed_read = read_op(lut_speed_reg(i), read[i].1);
        let with_temp = before.push(temp_read);
        let with_both = with_temp.push(speed_read);
        // the history up to the reads of entry i
        assert(read.take(i + 1).drop_last() =~= read.take(i));
        assert(lut_reads(read.take(i + 1)) =~= lut_reads(read.take(i)) + seq![
            temp_read,
            speed_read,
        ]);
        lemma_lut_reads_prefix(read, i + 1);
        assert(ops.take(w.len() + 2 * i + 2) =~= w + lut_reads(read).take(2 * i + 2));
        assert(with_both =~= before + seq![temp_read, speed_read]);
        assert(ops.take(w.len() + 2 * i + 2) =~= with_both);
        lemma_reads_stored_prefix(DEVICE_ADDRESS, init, ops, w.len() + 2 * i + 2);
        assert(with_both.drop_last() =~= with_temp);
        assert(with_temp.drop_last() =~= before);
        assert(reads_stored(DEVICE_ADDRESS, init, with_temp));
        // the reads found what the writes stored
        lemma_lut_reads_keep_registers(init, w, read.take(i), lut_temp_reg(i));
        lemma_lut_reads_keep_registers(init, w, read.take(i), lut_speed_reg(i));
        assert(registers_after(DEVICE_ADDRESS, init, with_temp)(lut_speed_reg(i))
            == registers_after(DEVICE_ADDRESS, init, before)(lut_speed_reg(i)));
        lemma_lut_writes_store(init, stored, i);
    }
    assert(read =~= stored);
}

/// The writes of a lookup table leave each entry's registers holding the
/// entry.
proof fn lemma_lut_writes_store(init: spec_fn(u8) -> u8, lut: Seq<(u8, u8)>, j: int)
    requires
        0 <= j < lut.len() <= 8,
    ensures
        registers_after(DEVICE_ADDRESS, init, lut_writes(lut))(lut_temp_reg(j)) == lut[j].0,
        registers_after(DEVICE_ADDRESS, init, lut_writes(lut))(lut_speed_reg(j)) == lut[j].1,
    decreases lut.len(),
{
    let k = lut.len() - 1;
    let prev = lut_writes(lut.drop_last());
    let with_temp = prev.push(write_op(lut_temp_reg(k), lut[k].0));
    let all = lut_writes(lut);
    assert(all =~= with_temp.push(write_op(lut_speed_reg(k), lut[k].1)));
    assert(all.drop_last() =~= with_temp);
    assert(with_temp.drop_last() =~= prev);
    let r0 = registers_after(DEVICE_ADDRESS, init, prev);
    let r1 = registers_after(DEVICE_ADDRESS, init, with_temp);
    let r2 = registers_after(DEVICE_ADDRESS, init, all);
    assert forall|a: u8| #[trigger] r1(a) == (if a == lut_temp_reg(k) { lut[k].0 } else { r0(a) }) by {}
    assert forall|a: u8| #[trigger] r2(a) == (if a == lut_speed_reg(k) { lut[k].1 } else { r1(a) }) by {}
    if j < k {
        lemma_lut_writes_store(init, lut.drop_last(), j);
    }
}

/// The reads of the first `n` lookup table entries begin the reads of the
/// whole table.
proof fn lemma_lut_reads_prefix(lut: Seq<(u8, u8)>, n: int)
    requires
        0 <= n <= lut.len(),
    ensures
        lut_reads(lut).take(2 * n) == lut_reads(lut.take(n)),
    decreases lut.len(),
{
    lemma_lut_reads_len(lut);
    lemma_lut_reads_len(lut.take(n));
    if n == lut.len() {
        assert(lut.take(n) =~= lut);
        assert(lut_reads(lut).take(2 * n) =~= lut_reads(lut));
    } else {
        let prev = lut.drop_last();
        lemma_lut_reads_len(prev);
        lemma_lut_reads_prefix(prev, n);
        assert(prev.take(n) =~= lut.take(n));
        assert(lut_reads(lut).take(2 * n) =~= lut_reads(prev).take(2 * n));
    }
}

/// Lookup table reads leave the registers as they are.
proof fn lemma_lut_reads_keep_registers(
    init: spec_fn(u8) -> u8,
    w: Seq<BusOp>,
    read: Seq<(u8, u8)>,
    a: u8,
)
    requires
        read.len() <= 8,
    ensures
        registers_after(DEVICE_ADDRESS, init, w + lut_reads(read))(a) == registers_after(
            DEVICE_ADDRESS,
            init,
            w,
        )(a),
    decreases read.len(),
{
    if read.len() > 0 {
        let k = read.len() - 1;
        let prev = w + lut_reads(read.drop_last());
        let with_temp = prev.push(read_op(lut_temp_reg(k), read[k].0));
        let all = w + lut_reads(read);
        assert(all =~= with_temp.push(read_op(lut_speed_reg(k), read[k].1)));
        assert(all.drop_last() =~= with_temp);
        assert(with_temp.drop_last() =~= prev);
        assert(registers_after(DEVICE_ADDRESS, init, all)(a) == registers_after(
            DEVICE_ADDRESS,
            init,
            with_temp,
        )(a));
        assert(registers_after(DEVICE_ADDRESS, init, with_temp)(a) == registers_after(
            DEVICE_ADDRESS,
            init,
            prev,
        )(a));
        lemma_lut_reads_keep_registers(init, w, read.drop_last(), a);
    } else {
        assert(w + lut_reads(read) =~= w);
    }
}

/// Two reads per lookup table entry.
proof fn lemma_lut_reads_len(lut: Seq<(u8, u8)>)
    ensures
        lut_reads(lut).len() == 2 * lut.len(),
    decreases lut.len(),
{
    if lut.len() > 0 {
        lemma_lut_reads_len(lut.drop_last());
    }
}

} // verus!
