use vstd::prelude::*;

use crate::interface::{BusEvent, DisplayInterface};
use vstd::slice::slice_to_vec;

verus! {

/// One recorded bus action: the executable twin of a trace event.
#[derive(Debug, Clone, PartialEq, Eq)]
pub enum BusRecord {
    /// The reset line was driven to the given level (true is high).
    Reset(bool),
    /// The data/command select line was driven to the given level.
    Select(bool),
    /// The given bytes were written over the serial bus.
    Write(Vec<u8>),
    /// The given bytes were read over the serial bus.
    Read(Vec<u8>),
    /// The busy line was observed deasserted.
    Ready,
    /// Execution paused for the given number of milliseconds.
    Delay(u32),
}

impl View for BusRecord {
    type V = BusEvent;

    open spec fn view(&self) -> BusEvent {
        match self {
            BusRecord::Reset(high) => BusEvent::Reset(*high),
            BusRecord::Select(data) => BusEvent::Select(*data),
            BusRecord::Write(bytes) => BusEvent::Write(bytes@),
            BusRecord::Read(bytes) => BusEvent::Read(bytes@),
            BusRecord::Ready => BusEvent::Ready,
            BusRecord::Delay(ms) => BusEvent::Delay(*ms),
        }
    }
}

/// A bench transport: it reaches no hardware, records every action in
/// order, and never fails.  A read hands back a fixed byte in every
/// position.  Its ghost trace is exactly the view of its log, so a driver
/// over it enjoys every trace contract, and a test can hold the log against
/// the byte stream the contracts promise.
pub struct RecordingInterface {
    log: Vec<BusRecord>,
    read_byte: u8,
}

impl RecordingInterface {
    /// An empty recorder whose reads return the given byte.
    pub fn new(read_byte: u8) -> (r: Self)
        ensures
            r.events() == Seq::<BusEvent>::empty(),
            r.infallible(),
    {
        let r = RecordingInterface { log: Vec::new(), read_byte };
        proof {
            assert(r.events() =~= Seq::<BusEvent>::empty());
        }
        r
    }

    /// The recorded actions, oldest first.
    pub fn log(&self) -> (r: &Vec<BusRecord>)
        ensures
            r@.map_values(|rec: BusRecord| rec@) == self.events(),
    {
        &self.log
    }
}

impl DisplayInterface for RecordingInterface {
    type SpiError = ();

    type RstError = ();

    type DcError = ();

    type BusyError = ();

    closed spec fn events(&self) -> Seq<BusEvent> {
        self.log@.map_values(|rec: BusRecord| rec@)
    }

    open spec fn infallible(&self) -> bool {
        true
    }

    fn set_reset(&mut self, high: bool) -> (r: Result<(), ()>) {
        self.log.push(BusRecord::Reset(high));
        proof {
            assert(self.events() =~= old(self).events().push(BusEvent::Reset(high)));
        }
        Ok(())
    }

    fn set_dc(&mut self, data: bool) -> (r: Result<(), ()>) {
        self.log.push(BusRecord::Select(data));
        proof {
            assert(self.events() =~= old(self).events().push(BusEvent::Select(data)));
        }
        Ok(())
    }

    fn write_bytes(&mut self, data: &[u8]) -> (r: Result<(), ()>) {
        let copy = slice_to_vec(data);
        self.log.push(BusRecord::Write(copy));
        proof {
            assert(self.events() =~= old(self).events().push(BusEvent::Write(data@)));
        }
        Ok(())
    }

    #[verifier::loop_isolation(false)]
    fn read_bytes(&mut self, buf: &mut Vec<u8>) -> (r: Result<(), ()>) {
        let n = buf.len();
        buf.clear();
        let mut copy: Vec<u8> = Vec::new();
        let mut i: usize = 0;
        while i < n
            invariant
                i <= n,
                buf@.len() == i,
                copy@ == buf@,
            decreases n - i,
        {
            buf.push(self.read_byte);
            copy.push(self.read_byte);
            i = i + 1;
        }
        self.log.push(BusRecord::Read(copy));
        proof {
            assert(self.events() =~= old(self).events().push(BusEvent::Read(buf@)));
        }
        Ok(())
    }

    fn wait_while_busy(&mut self) -> (r: Result<(), ()>) {
        self.log.push(BusRecord::Ready);
        proof {
            assert(self.events() =~= old(self).events().push(BusEvent::Ready));
        }
        Ok(())
    }

    fn delay_ms(&mut self, ms: u32) {
        self.log.push(BusRecord::Delay(ms));
        proof {
            assert(self.events() =~= old(self).events().push(BusEvent::Delay(ms)));
        }
    }
}

} // verus!
