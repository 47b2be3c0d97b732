use vstd::prelude::*;
use crate::cell::SensorCell;

verus! {

/// Time between two samples, in milliseconds.
pub const SAMPLE_PERIOD_MS: u64 = 100;

/// Bits of resolution of each analog conversion.
pub const ANALOG_RESOLUTION_BITS: u8 = 14;

/// How an analog conversion ended.
#[derive(Clone, Copy, Debug, PartialEq, Eq, Structural)]
pub enum Conversion {
    /// The channel produced this sample.
    Done(i16),
    /// The hardware reported a failure; no sample exists.
    Failed,
}

/// What the sampling task does next.
#[derive(Clone, Copy, Debug, PartialEq, Eq, Structural)]
pub enum SamplerAction {
    /// Wait this many milliseconds, then start the next conversion.
    Sleep(u64),
    /// Stop: the failure is fatal to the whole program.
    Halt,
}

/// The decisions of the sampling task: publish each sample, then wait for
/// the next period.
pub struct Sampler {
    interval_ms: u64,
}

impl Sampler {
    /// The time between two samples, in milliseconds.
    pub closed spec fn interval(&self) -> u64 {
        self.interval_ms
    }

    /// A sampler that waits `interval_ms` between two conversions.
    pub fn new(interval_ms: u64) -> (r: Sampler)
        ensures
            r.interval() == interval_ms,
    {
        Sampler { interval_ms }
    }

    /// The time between two samples, in milliseconds.
    pub fn interval_ms(&self) -> (r: u64)
        ensures
            r == self.interval(),
    {
        self.interval_ms
    }

    /// Handles the end of a conversion: a sample is written to the cell and
    /// the task sleeps for its interval; a failure leaves the cell untouched
    /// and halts, so no stale value is ever published as new.
    pub fn on_conversion(&self, cell: &mut SensorCell, c: Conversion) -> (a: SamplerAction)
        requires
            old(cell).wf(),
        ensures
            final(cell).wf(),
            match c {
                Conversion::Done(v) => {
                    &&& final(cell).writes() == old(cell).writes().push(v)
                    &&& final(cell)@ == v
                    &&& a == SamplerAction::Sleep(self.interval())
                },
                Conversion::Failed => {
                    &&& *final(cell) == *old(cell)
                    &&& a == SamplerAction::Halt
                },
            },
    {
        match c {
            Conversion::Done(v) => {
                cell.write(v);
                SamplerAction::Sleep(self.interval_ms)
            },
            Conversion::Failed => SamplerAction::Halt,
        }
    }
}

} // verus!
