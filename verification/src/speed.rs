//! The two speeds of an ARINC 429 bus.

use vstd::prelude::*;

verus! {

/// ARINC 429 communication speeds
#[derive(Debug, Copy, Clone, PartialEq, Eq, Structural, Hash)]
pub enum Speed {
    /// High speed, 100 kbps
    High,
    /// Low speed, 12.5 kbps
    Low,
}

} // verus!
