//! The clock frequencies the serial port configuration reads. The clock tree
//! itself is configured outside this library; the drivers only consume the
//! resulting frequencies.

use vstd::prelude::*;

use crate::time::Hertz;

verus! {

/// The frozen clock configuration.
#[derive(Clone, Copy, PartialEq, Eq, Structural, Debug)]
pub struct Clocks {
    /// Frequency of the tile-link (peripheral) clock that feeds the UART's
    /// baud-rate generator.
    pub tlclk: Hertz,
}

impl Clocks {
    /// The tile-link clock frequency.
    pub fn tlclk(&self) -> (r: Hertz)
        ensures
            r == self.tlclk,
    {
        self.tlclk
    }
}

} // verus!
