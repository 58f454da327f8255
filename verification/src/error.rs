//! What can go wrong with what discovery reports.

use vstd::prelude::*;

verus! {

/// An error in reading what discovery reports.
#[derive(PartialEq, Eq, Structural, Copy, Clone, Debug)]
pub enum Error {
    /// No private networking was found.
    Unavailable,
    /// A record could not be read.
    Parse,
}

} // verus!
