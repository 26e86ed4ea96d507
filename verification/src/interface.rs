use vstd::prelude::*;

verus! {

/// One observable action on the display's 4-wire control interface.  The
/// ghost trace of a transport is a sequence of these, oldest first, and every
/// contract of the driver is stated over that trace.
pub enum BusEvent {
    /// The reset line was driven to the given level (true is high).
    Reset(bool),
    /// The data/command select line was driven to the given level
    /// (true selects data, false selects command).
    Select(bool),
    /// The given bytes were written over the serial bus.
    Write(Seq<u8>),
    /// The given bytes were read over the serial bus.
    Read(Seq<u8>),
    /// The busy line was observed deasserted: the chip is idle.
    Ready,
    /// Execution paused for the given number of milliseconds.
    Delay(u32),
}

/// The capability set the driver consumes from the host platform: output
/// line control for the reset and data/command lines, a wait on the busy
/// line, byte transfer over the serial bus, and a delay.  A blocking host
/// realizes the busy wait as a poll loop; a suspending host awaits a
/// level transition.  Each capability may fail independently, with its own
/// error type; the delay cannot fail.
///
/// An implementation carries a ghost trace of the bus events it has
/// performed.  A failed operation leaves the trace as it was: the trace
/// records what was carried out, and an aborted operation is not.
pub trait DisplayInterface: Sized {
    /// Error of the serial transfer capability.
    type SpiError;

    /// Error of the reset line capability.
    type RstError;

    /// Error of the data/command select line capability.
    type DcError;

    /// Error of the busy line capability.
    type BusyError;

    /// The bus events performed so far, oldest first.
    spec fn events(&self) -> Seq<BusEvent>;

    /// True of a transport whose capabilities cannot fail, such as a bench
    /// recorder; on such a transport every operation returns Ok.
    spec fn infallible(&self) -> bool;

    /// Drive the reset line to the given level.
    fn set_reset(&mut self, high: bool) -> (r: Result<(), Self::RstError>)
        ensures
            final(self).infallible() == old(self).infallible(),
            old(self).infallible() ==> r is Ok,
            match r {
                Ok(()) => final(self).events() == old(self).events().push(BusEvent::Reset(high)),
                Err(_) => final(self).events() == old(self).events(),
            },
    ;

    /// Drive the data/command select line: true selects data, false selects
    /// command.
    fn set_dc(&mut self, data: bool) -> (r: Result<(), Self::DcError>)
        ensures
            final(self).infallible() == old(self).infallible(),
            old(self).infallible() ==> r is Ok,
            match r {
                Ok(()) => final(self).events() == old(self).events().push(BusEvent::Select(data)),
                Err(_) => final(self).events() == old(self).events(),
            },
    ;

    /// Write the given bytes over the serial bus, as one transaction.
    fn write_bytes(&mut self, data: &[u8]) -> (r: Result<(), Self::SpiError>)
        ensures
            final(self).infallible() == old(self).infallible(),
            old(self).infallible() ==> r is Ok,
            match r {
                Ok(()) => final(self).events() == old(self).events().push(BusEvent::Write(data@)),
                Err(_) => final(self).events() == old(self).events(),
            },
    ;

    /// Read bytes over the serial bus, filling the whole buffer.
    fn read_bytes(&mut self, buf: &mut Vec<u8>) -> (r: Result<(), Self::SpiError>)
        ensures
            final(self).infallible() == old(self).infallible(),
            old(self).infallible() ==> r is Ok,
            final(buf)@.len() == old(buf)@.len(),
            match r {
                Ok(()) => final(self).events() == old(self).events().push(
                    BusEvent::Read(final(buf)@),
                ),
                Err(_) => final(self).events() == old(self).events(),
            },
    ;

    /// Return once the busy line is deasserted: poll it or await a level
    /// transition, as the host prefers.
    fn wait_while_busy(&mut self) -> (r: Result<(), Self::BusyError>)
        ensures
            final(self).infallible() == old(self).infallible(),
            old(self).infallible() ==> r is Ok,
            match r {
                Ok(()) => final(self).events() == old(self).events().push(BusEvent::Ready),
                Err(_) => final(self).events() == old(self).events(),
            },
    ;

    /// Suspend execution for the given number of milliseconds.
    fn delay_ms(&mut self, ms: u32)
        ensures
            final(self).infallible() == old(self).infallible(),
            final(self).events() == old(self).events().push(BusEvent::Delay(ms)),
    ;
}

} // verus!
