//! Sensor driver: acquires one seven-field snapshot per cycle.
//!
//! The device presents the readings as fourteen contiguous byte registers,
//! a high/low pair per field, starting at the accelerometer X high byte.
//! One snapshot is fourteen back-to-back register reads in ascending address
//! order. Each read may fail on the bus; a failure is not retried here, it
//! propagates to the caller as a failed snapshot.

use vstd::prelude::*;

verus! {

/// A failed two-wire bus transaction.
#[derive(Clone, Copy, Debug, PartialEq, Eq, Structural)]
pub enum BusError {
    /// The device did not acknowledge.
    Nack,
    /// Bus arbitration was lost.
    Arbitration,
    /// The transaction timed out.
    Timeout,
}

/// One complete, same-instant set of readings: acceleration on three axes,
/// the die temperature, and angular rate on three axes.
#[derive(Clone, Copy, Debug, PartialEq, Eq, Structural)]
pub struct SensorSnapshot {
    pub acc_x: i16,
    pub acc_y: i16,
    pub acc_z: i16,
    pub temp: i16,
    pub gyro_x: i16,
    pub gyro_y: i16,
    pub gyro_z: i16,
}

/// First register of the snapshot block (accelerometer X, high byte).
pub const FIRST_SNAPSHOT_REG: u8 = 0x3B;

/// Power-management register; writing zero wakes the device from sleep into
/// its operating mode, every axis enabled.
pub const PWR_MGMT_REG: u8 = 0x6B;

/// Number of byte registers in one snapshot: two per field, seven fields.
pub const SNAPSHOT_BYTES: usize = 14;

/// The signed 16-bit reading held by a high/low register pair.
pub open spec fn spec_word(hi: u8, lo: u8) -> i16 {
    let u = hi as int * 256 + lo as int;
    if u < 32768 {
        u as i16
    } else {
        (u - 65536) as i16
    }
}

/// Combines a high/low register pair into its signed 16-bit reading.
pub fn word(hi: u8, lo: u8) -> (r: i16)
    ensures
        r == spec_word(hi, lo),
{
    let u: u16 = (hi as u16) * 256 + (lo as u16);
    if u < 32768 {
        u as i16
    } else {
        let neg: u32 = 65536u32 - (u as u32);
        (-(neg as i32)) as i16
    }
}

/// The fixed address order of the fourteen reads of one snapshot.
pub open spec fn read_plan() -> Seq<u8> {
    Seq::new(SNAPSHOT_BYTES as nat, |i: int| (FIRST_SNAPSHOT_REG + i) as u8)
}

/// Every reply carries a byte.
pub open spec fn all_ok(replies: Seq<Result<u8, BusError>>) -> bool {
    forall|i: int| 0 <= i < replies.len() ==> replies[i] is Ok
}

/// The bytes carried by the replies (meaningful where `all_ok` holds).
pub open spec fn bytes_of(replies: Seq<Result<u8, BusError>>) -> Seq<u8> {
    Seq::new(replies.len(), |i: int| replies[i]->Ok_0)
}

/// Index of the first failed reply (the length, where none failed).
pub open spec fn first_err_idx(replies: Seq<Result<u8, BusError>>) -> int
    decreases replies.len(),
{
    if replies.len() == 0 {
        0
    } else if replies[0] is Err {
        0
    } else {
        1 + first_err_idx(replies.drop_first())
    }
}

/// The snapshot assembled from fourteen register bytes.
pub open spec fn spec_snapshot_of(b: Seq<u8>) -> SensorSnapshot
    recommends
        b.len() == SNAPSHOT_BYTES,
{
    SensorSnapshot {
        acc_x: spec_word(b[0], b[1]),
        acc_y: spec_word(b[2], b[3]),
        acc_z: spec_word(b[4], b[5]),
        temp: spec_word(b[6], b[7]),
        gyro_x: spec_word(b[8], b[9]),
        gyro_y: spec_word(b[10], b[11]),
        gyro_z: spec_word(b[12], b[13]),
    }
}

/// What one acquisition returns for a given sequence of bus replies.
pub open spec fn spec_read_outcome(replies: Seq<Result<u8, BusError>>) -> Result<
    SensorSnapshot,
    BusError,
>
    recommends
        replies.len() == SNAPSHOT_BYTES,
{
    if all_ok(replies) {
        Ok(spec_snapshot_of(bytes_of(replies)))
    } else {
        Err(replies[first_err_idx(replies)]->Err_0)
    }
}

/// The addresses one acquisition reads for a given sequence of bus replies:
/// the whole plan, or the plan up to and including the first failed read.
pub open spec fn spec_reads_of(replies: Seq<Result<u8, BusError>>) -> Seq<u8>
    recommends
        replies.len() == SNAPSHOT_BYTES,
{
    if all_ok(replies) {
        read_plan()
    } else {
        read_plan().take(first_err_idx(replies) + 1)
    }
}

/// Owns the two-wire bus handle on the target. Here it carries the device
/// mode and, as instrumentation, the traces of the register transactions it
/// has issued. The bus itself is the platform's: each primitive takes the
/// device's answer to its transaction as an argument and is verified for
/// every answer the bus can give.
#[derive(Debug)]
pub struct SensorDriver {
    /// The device was configured into its operating mode (woken from sleep,
    /// all axes enabled) before first use.
    pub awake: bool,
    /// Every register address a read was issued for, in order.
    pub reads: Vec<u8>,
    /// Every register write the device acknowledged, in order.
    pub writes: Vec<(u8, u8)>,
}

impl SensorDriver {
    /// Issues one register read on the bus; `reply` is the device's answer,
    /// which propagates unchanged. The issued address is recorded either way.
    pub fn read_register(&mut self, addr: u8, reply: Result<u8, BusError>) -> (r: Result<
        u8,
        BusError,
    >)
        ensures
            r == reply,
            final(self).awake == old(self).awake,
            final(self).reads@ == old(self).reads@.push(addr),
            final(self).writes == old(self).writes,
    {
        self.reads.push(addr);
        reply
    }

    /// Issues one register write on the bus; `ack` is the device's answer,
    /// which propagates unchanged. Only an acknowledged write is recorded:
    /// one the device refused never took effect.
    pub fn write_register(&mut self, addr: u8, value: u8, ack: Result<(), BusError>) -> (r: Result<
        (),
        BusError,
    >)
        ensures
            r == ack,
            final(self).awake == old(self).awake,
            final(self).reads == old(self).reads,
            ack is Ok ==> final(self).writes@ == old(self).writes@.push((addr, value)),
            ack is Err ==> final(self).writes == old(self).writes,
    {
        if ack.is_ok() {
            self.writes.push((addr, value));
        }
        ack
    }

    /// Configures the device into a known operating mode: one write to the
    /// power-management register wakes it from sleep with every axis enabled.
    /// `wake_ack` is the device's answer to that write; a device that does
    /// not acknowledge is reported as the bus failure it raised, and there is
    /// no recovery path without a working sensor.
    pub fn init_device(wake_ack: Result<(), BusError>) -> (r: Result<SensorDriver, BusError>)
        ensures
            r is Ok <==> wake_ack is Ok,
            r matches Ok(d) ==> d.awake && d.reads@ == Seq::<u8>::empty() && d.writes@ == seq![
                (PWR_MGMT_REG, 0u8),
            ],
            r matches Err(e) ==> wake_ack == Err::<(), BusError>(e),
    {
        let mut d = SensorDriver { awake: false, reads: Vec::new(), writes: Vec::new() };
        match d.write_register(PWR_MGMT_REG, 0, wake_ack) {
            Ok(()) => {
                d.awake = true;
                proof {
                    assert(d.writes@ =~= seq![(PWR_MGMT_REG, 0u8)]);
                }
                Ok(d)
            },
            Err(e) => Err(e),
        }
    }

    /// Reads the fourteen snapshot registers in the fixed ascending order,
    /// stopping at the first failed read, which propagates unchanged.
    pub fn read_snapshot(&mut self, replies: &Vec<Result<u8, BusError>>) -> (r: Result<
        SensorSnapshot,
        BusError,
    >)
        requires
            old(self).awake,
            replies@.len() == SNAPSHOT_BYTES,
        ensures
            final(self).awake == old(self).awake,
            final(self).reads@ == old(self).reads@ + spec_reads_of(replies@),
            final(self).writes == old(self).writes,
            r == spec_read_outcome(replies@),
    {
        let mut bytes: Vec<u8> = Vec::new();
        let mut i: usize = 0;
        while i < SNAPSHOT_BYTES
            invariant
                self.awake == old(self).awake,
                i <= SNAPSHOT_BYTES,
                replies@.len() == SNAPSHOT_BYTES,
                bytes@.len() == i as int,
                forall|j: int| 0 <= j < i as int ==> (#[trigger] replies@[j]) is Ok,
                forall|j: int| 0 <= j < i as int ==> bytes@[j] == (#[trigger] replies@[j])->Ok_0,
                self.reads@ == old(self).reads@ + read_plan().take(i as int),
                self.writes == old(self).writes,
            decreases SNAPSHOT_BYTES - i,
        {
            let addr: u8 = FIRST_SNAPSHOT_REG + (i as u8);
            let reply = self.read_register(addr, replies[i]);
            proof {
                assert(read_plan().take(i as int).push(addr) =~= read_plan().take(i as int + 1));
                assert(old(self).reads@ + read_plan().take(i as int + 1) =~= (old(self).reads@
                    + read_plan().take(i as int)).push(addr));
            }
            match reply {
                Ok(b) => {
                    bytes.push(b);
                    proof {
                        assert(replies@[i as int] is Ok);
                        assert(bytes@[i as int] == replies@[i as int]->Ok_0);
                    }
                },
                Err(e) => {
                    proof {
                        assert(!all_ok(replies@));
                        lemma_first_err(replies@, i as int);
                    }
                    return Err(e);
                },
            }
            i += 1;
        }
        proof {
            assert(read_plan().take(SNAPSHOT_BYTES as int) =~= read_plan());
            assert(bytes@ =~= bytes_of(replies@));
        }
        let snap = SensorSnapshot {
            acc_x: word(bytes[0], bytes[1]),
            acc_y: word(bytes[2], bytes[3]),
            acc_z: word(bytes[4], bytes[5]),
            temp: word(bytes[6], bytes[7]),
            gyro_x: word(bytes[8], bytes[9]),
            gyro_y: word(bytes[10], bytes[11]),
            gyro_z: word(bytes[12], bytes[13]),
        };
        Ok(snap)
    }
}

/// A reply sequence whose first failure stands at `i` has `i` as its first
/// failed index.
proof fn lemma_first_err(replies: Seq<Result<u8, BusError>>, i: int)
    requires
        0 <= i < replies.len(),
        replies[i] is Err,
        forall|j: int| 0 <= j < i ==> replies[j] is Ok,
    ensures
        first_err_idx(replies) == i,
    decreases i,
{
    if i > 0 {
        assert(replies.drop_first()[i - 1] is Err);
        assert forall|j: int| 0 <= j < i - 1 implies replies.drop_first()[j] is Ok by {
            assert(replies[j + 1] is Ok);
        }
        lemma_first_err(replies.drop_first(), i - 1);
    }
}

/// Where some reply failed, the first failed index lies inside the sequence.
pub proof fn lemma_first_err_in_range(replies: Seq<Result<u8, BusError>>)
    requires
        !all_ok(replies),
    ensures
        0 <= first_err_idx(replies) < replies.len(),
        replies[first_err_idx(replies)] is Err,
    decreases replies.len(),
{
    let w = choose|i: int| 0 <= i < replies.len() && !(replies[i] is Ok);
    if replies.len() > 0 && !(replies[0] is Err) {
        assert(replies.drop_first()[w - 1] is Err);
        assert(!all_ok(replies.drop_first()));
        lemma_first_err_in_range(replies.drop_first());
    }
}

/// The address trace of one acquisition is always a prefix of the fixed plan,
/// and the whole plan where every read succeeded: no reordering, no skipped
/// registers.
pub proof fn lemma_reads_follow_plan(replies: Seq<Result<u8, BusError>>)
    requires
        replies.len() == SNAPSHOT_BYTES,
    ensures
        spec_reads_of(replies).is_prefix_of(read_plan()),
        all_ok(replies) ==> spec_reads_of(replies) == read_plan(),
{
    if all_ok(replies) {
        assert(read_plan().is_prefix_of(read_plan())) by {
            assert(read_plan() =~= read_plan().subrange(0, read_plan().len() as int));
        }
    } else {
        lemma_first_err_in_range(replies);
        let k = first_err_idx(replies) + 1;
        assert(read_plan().take(k) =~= read_plan().subrange(0, k));
    }
}

/// The outcome and the address trace of one acquisition are functions of the
/// bus replies alone: identical replies give an identical snapshot result and
/// an identical trace.
pub proof fn lemma_acquisition_deterministic(
    a: Seq<Result<u8, BusError>>,
    b: Seq<Result<u8, BusError>>,
)
    requires
        a == b,
    ensures
        spec_read_outcome(a) == spec_read_outcome(b),
        spec_reads_of(a) == spec_reads_of(b),
{
}

} // verus!
