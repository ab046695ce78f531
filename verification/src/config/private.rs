//! Seals the sample modes.

use crate::rx::processing::Processor;
use vstd::prelude::*;

verus! {

/// A sample mode of this crate.
pub trait Sealed {
    /// What turns USB blocks into samples in this mode.
    type Processor: Processor;
}

} // verus!
