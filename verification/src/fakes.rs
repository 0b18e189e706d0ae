//! Verified stand-ins for the external collaborators: a bus that answers
//! reads from a fixed script, a timer that records its interval, and a
//! scheduler gateway that records every submission and answers with a fixed
//! verdict. They let the driver be exercised end to end without hardware.

use vstd::prelude::*;

use crate::callback::{RequestModel, SchedulerGateway, UpcallRequest};
use crate::hil::{Bus, BusWrite, Timer};

verus! {

/// One recorded bus write: the device address and the payload bytes.
pub struct WriteRecord {
    pub addr: u8,
    pub data: Vec<u8>,
}

impl WriteRecord {
    pub open spec fn view(&self) -> BusWrite {
        BusWrite { addr: self.addr, data: self.data@ }
    }
}

/// A bus double: reads are answered from a fixed script, front first, and
/// every write is recorded.
pub struct ScriptedBus {
    script: Vec<(u8, u8)>,
    powered: bool,
    write_log: Vec<WriteRecord>,
}

impl ScriptedBus {
    pub fn new(script: Vec<(u8, u8)>) -> (r: ScriptedBus)
        ensures
            r.upcoming() == script@,
            !r.powered(),
            r.writes() == Seq::<BusWrite>::empty(),
    {
        let r = ScriptedBus { script: script, powered: false, write_log: Vec::new() };
        proof {
            assert(r.write_log@.map_values(|w: WriteRecord| w.view()) =~= Seq::<BusWrite>::empty());
        }
        r
    }

    /// How many scripted responses have not been consumed yet.
    pub fn remaining(&self) -> (r: usize)
        ensures
            r == self.upcoming().len(),
    {
        self.script.len()
    }

    /// How many writes have been issued.
    pub fn write_count(&self) -> (r: usize)
        ensures
            r == self.writes().len(),
    {
        self.write_log.len()
    }

    /// Whether the bus is powered.
    pub fn is_powered(&self) -> (r: bool)
        ensures
            r == self.powered(),
    {
        self.powered
    }

    /// The `i`th write issued, oldest first.
    pub fn write_at(&self, i: usize) -> (r: &WriteRecord)
        requires
            i < self.writes().len(),
        ensures
            r.view() == self.writes()[i as int],
    {
        &self.write_log[i]
    }
}

impl Bus for ScriptedBus {
    closed spec fn upcoming(&self) -> Seq<(u8, u8)> {
        self.script@
    }

    closed spec fn powered(&self) -> bool {
        self.powered
    }

    closed spec fn writes(&self) -> Seq<BusWrite> {
        self.write_log@.map_values(|w: WriteRecord| w.view())
    }

    fn enable(&mut self) {
        self.powered = true;
    }

    fn disable(&mut self) {
        self.powered = false;
    }

    fn write(&mut self, addr: u8, data: &[u8]) {
        let record = WriteRecord { addr: addr, data: vstd::slice::slice_to_vec(data) };
        self.write_log.push(record);
        proof {
            assert(self.write_log@.map_values(|w: WriteRecord| w.view())
                =~= old(self).write_log@.map_values(|w: WriteRecord| w.view()).push(
                (BusWrite { addr: addr, data: data@ }),
            ));
        }
    }

    fn read2(&mut self, _addr: u8) -> (r: (u8, u8)) {
        let r = self.script.remove(0);
        proof {
            assert(self.script@ =~= old(self).script@.skip(1));
        }
        r
    }
}

/// A timer double: remembers the interval it was last armed with.
pub struct FakeTimer {
    period: Option<u32>,
}

impl FakeTimer {
    pub fn new() -> (r: FakeTimer)
        ensures
            r.period() == None::<u32>,
    {
        FakeTimer { period: None }
    }

    /// The interval the timer is currently armed with.
    pub fn current_period(&self) -> (r: Option<u32>)
        ensures
            r == self.period(),
    {
        self.period
    }
}

impl Timer for FakeTimer {
    closed spec fn period(&self) -> Option<u32> {
        self.period
    }

    fn repeat(&mut self, interval: u32) {
        self.period = Some(interval);
    }
}

/// A gateway double: records every submitted request and answers each with
/// the fixed verdict it was built with, so rejection paths can be exercised.
pub struct ScriptedGateway {
    submissions: Vec<UpcallRequest>,
    accept: bool,
}

impl ScriptedGateway {
    /// The verdict this gateway answers every submission with.
    pub closed spec fn verdict(&self) -> bool {
        self.accept
    }

    pub fn new(accept: bool) -> (r: ScriptedGateway)
        ensures
            r.log() == Seq::<RequestModel>::empty(),
            r.verdict() == accept,
    {
        let r = ScriptedGateway { submissions: Vec::new(), accept: accept };
        proof {
            assert(r.submissions@.map_values(|q: UpcallRequest| q.view())
                =~= Seq::<RequestModel>::empty());
        }
        r
    }

    /// How many requests have been submitted.
    pub fn submission_count(&self) -> (r: usize)
        ensures
            r == self.log().len(),
    {
        self.submissions.len()
    }

    /// The `i`th submitted request, oldest first.
    pub fn submission_at(&self, i: usize) -> (r: &UpcallRequest)
        requires
            i < self.log().len(),
        ensures
            r.view() == self.log()[i as int],
    {
        &self.submissions[i]
    }
}

impl SchedulerGateway for ScriptedGateway {
    closed spec fn log(&self) -> Seq<RequestModel> {
        self.submissions@.map_values(|q: UpcallRequest| q.view())
    }

    fn submit(&mut self, request: UpcallRequest) -> (accepted: bool) {
        self.submissions.push(request);
        proof {
            assert(self.submissions@.map_values(|q: UpcallRequest| q.view())
                =~= old(self).submissions@.map_values(|q: UpcallRequest| q.view()).push(
                request.view(),
            ));
        }
        self.accept
    }
}

} // verus!
