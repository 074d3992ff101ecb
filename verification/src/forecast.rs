//! Band propagation status. The propagation model that computes the
//! status from frequencies and indices is floating-point physics and stays
//! with the caller; the status vocabulary lives here.

use vstd::prelude::*;

verus! {

/// Band propagation status.
#[derive(Debug, Clone, Copy, PartialEq, Eq, Structural)]
pub enum BandStatus {
    /// Propagation impossible.
    Closed,
    /// Unlikely but possible.
    Marginal,
    /// Good propagation expected.
    Open,
    /// Excellent propagation.
    Excellent,
}

impl BandStatus {
    /// Emoji for the status.
    pub open spec fn spec_as_emoji(self) -> Seq<char> {
        match self {
            BandStatus::Closed => "\u{274c}"@,
            BandStatus::Marginal => "\u{26a0}\u{fe0f}"@,
            BandStatus::Open => "\u{2705}"@,
            BandStatus::Excellent => "\u{2b50}"@,
        }
    }

    /// Emoji for the status.
    pub fn as_emoji(&self) -> (r: &'static str)
        ensures
            r@ == self.spec_as_emoji(),
    {
        match self {
            BandStatus::Closed => "\u{274c}",
            BandStatus::Marginal => "\u{26a0}\u{fe0f}",
            BandStatus::Open => "\u{2705}",
            BandStatus::Excellent => "\u{2b50}",
        }
    }
}

} // verus!
