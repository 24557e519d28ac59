//! Periodic trigger and handler: one acquisition/report/indicate cycle per
//! timer firing.
//!
//! The platform arms a hardware countdown timer at one firing per second and
//! dispatches each firing to `Firmware::firing`; the hardware masks the
//! interrupt while the handler runs, so exactly one firing is ever in flight,
//! which the exclusive borrow of the firmware state also enforces here. The
//! platform hands the handler the bus replies of the cycle's fourteen
//! register reads and carries its bytes out to the serial line.
//!
//! A bus failure during acquisition is surfaced, not swallowed: the handler
//! returns the error, moves to `Halted`, and accepts no further firing — the
//! halt-on-first-bus-failure reading of the design.

use vstd::prelude::*;
use vstd::pervasive::unreached;

use crate::channel::Channel;
use crate::format::header_bytes;
use crate::format::spec_header;
use crate::format::spec_report;
use crate::handoff::Handoff;
use crate::indicator::Indicator;
use crate::indicator::flashes_to;
use crate::sensor::BusError;
use crate::sensor::SNAPSHOT_BYTES;
use crate::sensor::SensorDriver;
use crate::sensor::SensorSnapshot;
use crate::sensor::all_ok;
use crate::sensor::bytes_of;
use crate::sensor::spec_read_outcome;
use crate::sensor::spec_reads_of;
use crate::sensor::spec_snapshot_of;

verus! {

/// Where the process stands in its life.
#[derive(Clone, Copy, Debug, PartialEq, Eq, Structural)]
pub enum Stage {
    /// Before the timer is armed: the initialization context owns everything.
    Idle,
    /// The timer runs and the interrupt is unmasked; firings recur forever.
    Armed,
    /// A bus failure stopped the cycle; no further firing is accepted.
    Halted,
}

/// A peripheral failed to configure at startup. Fatal: the timer is never
/// armed and the process halts before its idle loop.
#[derive(Clone, Copy, Debug, PartialEq, Eq, Structural)]
pub enum InitError {
    /// The motion sensor did not acknowledge its configuration writes.
    SensorNotResponding,
}

/// The whole firmware state: the stage and one handoff pair per
/// hardware-owning resource.
pub struct Firmware {
    pub stage: Stage,
    pub sensor: Handoff<SensorDriver>,
    pub channel: Handoff<Channel>,
    pub indicator: Handoff<Indicator>,
}

impl Firmware {
    /// Well-formedness: every handoff obeys its discipline; once armed (or
    /// halted) each resource is held by exactly one context, and the sensor
    /// device is in its operating mode.
    pub open spec fn wf(self) -> bool {
        &&& self.sensor.inv()
        &&& self.channel.inv()
        &&& self.indicator.inv()
        &&& (self.stage is Armed || self.stage is Halted ==> self.sensor.holds()
            && self.channel.holds() && self.indicator.holds())
        &&& (self.stage is Armed ==> self.sensor.resource().awake)
    }

    /// Everything that has appeared on the serial line.
    pub open spec fn serial_log(self) -> Seq<u8>
        recommends
            self.channel.holds(),
    {
        self.channel.resource().sent@
    }

    /// The sensor driver, wherever it is held.
    pub open spec fn driver(self) -> SensorDriver
        recommends
            self.sensor.holds(),
    {
        self.sensor.resource()
    }

    /// The status pin, wherever it is held.
    pub open spec fn pin(self) -> Indicator
        recommends
            self.indicator.holds(),
    {
        self.indicator.resource()
    }

    /// The state at power-on: idle, nothing owned anywhere.
    pub fn new() -> (r: Firmware)
        ensures
            r.wf(),
            r.stage is Idle,
            r.sensor.slot is None && r.sensor.cache is None && r.sensor.extractions == 0,
            r.channel.slot is None && r.channel.cache is None && r.channel.extractions == 0,
            r.indicator.slot is None && r.indicator.cache is None && r.indicator.extractions == 0,
    {
        Firmware {
            stage: Stage::Idle,
            sensor: Handoff::new(),
            channel: Handoff::new(),
            indicator: Handoff::new(),
        }
    }

    /// Arms the timer and unmasks the interrupt: allowed only after all three
    /// resources stand in their slots — the startup order is a correctness
    /// requirement, stated here as the precondition.
    pub fn arm(&mut self)
        requires
            old(self).wf(),
            old(self).stage is Idle,
            old(self).sensor.holds(),
            old(self).channel.holds(),
            old(self).indicator.holds(),
            old(self).sensor.resource().awake,
        ensures
            final(self).wf(),
            final(self).stage is Armed,
            final(self).sensor == old(self).sensor,
            final(self).channel == old(self).channel,
            final(self).indicator == old(self).indicator,
    {
        self.stage = Stage::Armed;
    }

    /// Full startup: configure the sensor device, create the channel and the
    /// indicator, store all three resources in their slots, then arm. A
    /// non-responding sensor is fatal: nothing is stored and nothing is
    /// armed.
    pub fn init(sensor_responds: bool) -> (r: Result<Firmware, InitError>)
        ensures
            r is Ok <==> sensor_responds,
            r matches Err(e) ==> e == InitError::SensorNotResponding,
            r matches Ok(fw) ==> {
                &&& fw.wf()
                &&& fw.stage is Armed
                &&& fw.sensor.slot is Some && fw.sensor.cache is None && fw.sensor.extractions
                    == 0
                &&& fw.channel.slot is Some && fw.channel.cache is None && fw.channel.extractions
                    == 0
                &&& fw.indicator.slot is Some && fw.indicator.cache is None
                    && fw.indicator.extractions == 0
                &&& fw.serial_log() == Seq::<u8>::empty()
                &&& fw.driver().awake && fw.driver().reads@ == Seq::<u8>::empty()
                &&& !fw.pin().active && fw.pin().trace@ == Seq::<bool>::empty()
            },
    {
        let wake_ack: Result<(), BusError> = if sensor_responds {
            Ok(())
        } else {
            Err(BusError::Nack)
        };
        let driver = match SensorDriver::init_device(wake_ack) {
            Ok(d) => d,
            Err(_) => {
                return Err(InitError::SensorNotResponding);
            },
        };
        let mut fw = Firmware::new();
        fw.sensor.store(driver);
        fw.channel.store(Channel::new());
        fw.indicator.store(Indicator::new());
        fw.arm();
        Ok(fw)
    }

    /// One timer firing: resolve the three resources (through the one-time
    /// handoff on the first firing, directly from the caches afterwards),
    /// send the header, acquire a snapshot, format and send the report, flash
    /// the indicator. The first failed bus read halts the cycle after the
    /// header: the error is returned and the stage moves to `Halted`.
    pub fn firing(&mut self, replies: &Vec<Result<u8, BusError>>) -> (r: Result<(), BusError>)
        requires
            old(self).wf(),
            old(self).stage is Armed,
            replies@.len() == SNAPSHOT_BYTES,
        ensures
            final(self).wf(),
            fires_to(*old(self), replies@, *final(self)),
            r is Ok <==> all_ok(replies@),
            r matches Err(e) ==> spec_read_outcome(replies@) == Err::<SensorSnapshot, BusError>(
                e,
            ),
    {
        self.sensor.resolve();
        self.channel.resolve();
        self.indicator.resolve();
        let hb = header_bytes();
        match &mut self.channel.cache {
            Some(ch) => ch.send_bytes(&hb),
            None => unreached(),
        }
        let outcome = match &mut self.sensor.cache {
            Some(d) => d.read_snapshot(replies),
            None => unreached(),
        };
        let snap = match outcome {
            Ok(s) => s,
            Err(e) => {
                self.stage = Stage::Halted;
                return Err(e);
            },
        };
        match &mut self.channel.cache {
            Some(ch) => ch.send_snapshot(&snap),
            None => unreached(),
        }
        match &mut self.indicator.cache {
            Some(p) => p.flash(),
            None => unreached(),
        }
        proof {
            assert((old(self).serial_log() + spec_header()) + spec_report(snap) =~= old(
                self,
            ).serial_log() + cycle_output(replies@));
        }
        Ok(())
    }
}

/// The bytes one successful cycle puts on the serial line: the header, then
/// the formatted report of the snapshot the replies carry.
pub open spec fn cycle_output(replies: Seq<Result<u8, BusError>>) -> Seq<u8> {
    spec_header() + spec_report(spec_snapshot_of(bytes_of(replies)))
}

/// How one firing relates the firmware state before it to the state after it,
/// for given bus replies.
pub open spec fn fires_to(pre: Firmware, replies: Seq<Result<u8, BusError>>, post: Firmware) -> bool {
    &&& post.wf()
    // every resource now lives in its cache; every slot is empty for good
    &&& post.sensor.cache is Some && post.sensor.slot is None && post.sensor.extractions == 1
    &&& post.channel.cache is Some && post.channel.slot is None && post.channel.extractions == 1
    &&& post.indicator.cache is Some && post.indicator.slot is None && post.indicator.extractions
        == 1
    // a firing that finds a cache populated never re-enters the critical section
    &&& (pre.sensor.cache is Some ==> post.sensor.extractions == pre.sensor.extractions)
    &&& (pre.channel.cache is Some ==> post.channel.extractions == pre.channel.extractions)
    &&& (pre.indicator.cache is Some ==> post.indicator.extractions == pre.indicator.extractions)
    // the driver stays configured and reads exactly the planned addresses
    &&& post.driver().awake == pre.driver().awake
    &&& post.driver().reads@ == pre.driver().reads@ + spec_reads_of(replies)
    &&& post.driver().writes == pre.driver().writes
    // the successful cycle: header, report, flash, still armed
    &&& (all_ok(replies) ==> {
        &&& post.stage is Armed
        &&& post.serial_log() == pre.serial_log() + cycle_output(replies)
        &&& flashes_to(pre.pin(), post.pin())
    })
    // the failed cycle: header only, no flash, halted
    &&& (!all_ok(replies) ==> {
        &&& post.stage is Halted
        &&& post.serial_log() == pre.serial_log() + spec_header()
        &&& post.pin() == pre.pin()
    })
}

/// For all firings after the first — every handoff cache already populated —
/// resource resolution leaves every extraction count unchanged: the shared
/// slots are read inside a critical section at most once over the process
/// lifetime.
pub proof fn lemma_steady_firing_no_extraction(
    pre: Firmware,
    replies: Seq<Result<u8, BusError>>,
    post: Firmware,
)
    requires
        fires_to(pre, replies, post),
        pre.sensor.cache is Some,
        pre.channel.cache is Some,
        pre.indicator.cache is Some,
    ensures
        post.sensor.extractions == pre.sensor.extractions,
        post.channel.extractions == pre.channel.extractions,
        post.indicator.extractions == pre.indicator.extractions,
{
}

/// Three consecutive firings with identical bus replies, all successful, put
/// exactly three repetitions of the header followed by the formatted
/// snapshot on the serial line, in that order, with nothing in between.
pub proof fn lemma_three_firings_serial(
    s0: Firmware,
    replies: Seq<Result<u8, BusError>>,
    s1: Firmware,
    s2: Firmware,
    s3: Firmware,
)
    requires
        all_ok(replies),
        fires_to(s0, replies, s1),
        fires_to(s1, replies, s2),
        fires_to(s2, replies, s3),
    ensures
        s3.serial_log() == s0.serial_log() + cycle_output(replies) + cycle_output(replies)
            + cycle_output(replies),
{
    assert(s3.serial_log() =~= s0.serial_log() + cycle_output(replies) + cycle_output(replies)
        + cycle_output(replies));
}

} // verus!
