//! Report channel: owns the serial transmit handle.
//!
//! On the target every send blocks until the hardware accepts each byte, with
//! no internal buffering; a line that never accepts another byte stalls the
//! caller forever, an accepted limitation of the design. Here the channel
//! carries the model of that line: the sequence of every byte ever handed to
//! the hardware, in order.

use vstd::prelude::*;
use vstd::string::StringSliceAdditionalSpecFns;

use crate::format::header_bytes;
use crate::format::report_bytes;
use crate::format::spec_header;
use crate::format::spec_report;
use crate::sensor::SensorSnapshot;

verus! {

/// Owns the serial transmit handle; `sent` is everything that has appeared on
/// the line, oldest byte first.
#[derive(Debug)]
pub struct Channel {
    pub sent: Vec<u8>,
}

impl Channel {
    /// A channel over a line nothing has been sent on.
    pub fn new() -> (r: Channel)
        ensures
            r.sent@ == Seq::<u8>::empty(),
    {
        Channel { sent: Vec::new() }
    }

    /// Sends one byte, blocking until the hardware accepts it.
    pub fn send_byte(&mut self, b: u8)
        ensures
            final(self).sent@ == old(self).sent@.push(b),
    {
        self.sent.push(b);
    }

    /// Sends a byte string, first byte first.
    pub fn send_bytes(&mut self, bs: &Vec<u8>)
        ensures
            final(self).sent@ == old(self).sent@ + bs@,
    {
        let mut i: usize = 0;
        while i < bs.len()
            invariant
                i <= bs@.len(),
                self.sent@ == old(self).sent@ + bs@.take(i as int),
            decreases bs@.len() - i,
        {
            self.send_byte(bs[i]);
            proof {
                assert((old(self).sent@ + bs@.take(i as int)).push(bs@[i as int]) =~= old(
                    self,
                ).sent@ + bs@.take(i as int + 1));
            }
            i += 1;
        }
        proof {
            assert(bs@.take(bs@.len() as int) =~= bs@);
        }
    }

    /// Sends the encoding bytes of a string, each blocking in turn.
    pub fn send_str(&mut self, s: &str)
        ensures
            final(self).sent@ == old(self).sent@ + s.spec_bytes(),
    {
        let bs = s.as_bytes();
        let mut i: usize = 0;
        while i < bs.len()
            invariant
                i <= bs@.len(),
                bs@ == s.spec_bytes(),
                self.sent@ == old(self).sent@ + bs@.take(i as int),
            decreases bs@.len() - i,
        {
            self.send_byte(bs[i]);
            proof {
                assert((old(self).sent@ + bs@.take(i as int)).push(bs@[i as int]) =~= old(
                    self,
                ).sent@ + bs@.take(i as int + 1));
            }
            i += 1;
        }
        proof {
            assert(bs@.take(bs@.len() as int) =~= bs@);
        }
    }

    /// Sends the fixed header line.
    pub fn send_header(&mut self)
        ensures
            final(self).sent@ == old(self).sent@ + spec_header(),
    {
        let h = header_bytes();
        self.send_bytes(&h);
    }

    /// Formats a snapshot as the fixed-layout report and sends it.
    pub fn send_snapshot(&mut self, s: &SensorSnapshot)
        ensures
            final(self).sent@ == old(self).sent@ + spec_report(*s),
    {
        let r = report_bytes(s);
        self.send_bytes(&r);
    }
}

} // verus!
