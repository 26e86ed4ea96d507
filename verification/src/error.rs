use vstd::prelude::*;

verus! {

/// One error kind per capability of the control interface; the originating
/// failure is carried opaquely.  No retries happen at this layer: every
/// failure propagates to the caller on first occurrence.
#[derive(Debug)]
pub enum Error<S, R, D, B> {
    /// The serial transfer failed.
    SpiError(S),
    /// Driving the reset line failed.
    RstPinError(R),
    /// Driving the data/command select line failed.
    DcPinError(D),
    /// Sensing the busy line failed.
    BusyPinError(B),
}

} // verus!
