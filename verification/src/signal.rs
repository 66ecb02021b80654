//! Sample signals for decorative charts.

use vstd::prelude::*;

verus! {

/// A signal that holds one level for ever.
#[derive(Debug, Clone, Copy, PartialEq, Eq, Structural)]
pub struct RandomSignal {
    pub value: u64,
}

impl RandomSignal {
    /// A signal at level 50.
    pub fn new() -> (signal: RandomSignal)
        ensures
            signal.value == 50,
    {
        RandomSignal { value: 50 }
    }

    /// The next sample: always 50, and the signal is left as it was.
    pub fn next(&mut self) -> (sample: Option<u64>)
        ensures
            sample == Some(50u64),
            *final(self) == *old(self),
    {
        Some(50)
    }
}

} // verus!
