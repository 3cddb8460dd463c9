//! The driver's error surface.
//!
//! Exactly one recoverable failure exists: a generic I/O error, raised
//! only when a read is handed a destination of fewer than two bytes. At
//! the byte-stream boundary it maps to a single generic category; no
//! finer cause is ever distinguished there.

use vstd::prelude::*;

verus! {

/// The single recoverable failure of the driver.
#[derive(Clone, Copy, Debug, PartialEq, Eq, Structural)]
#[non_exhaustive]
pub enum PioSerialError {
    /// General I/O error.
    IO,
}

/// The category an error is reported under at the byte-stream boundary.
#[derive(Clone, Copy, Debug, PartialEq, Eq, Structural)]
pub enum SerialErrorKind {
    /// A failure with no finer classification.
    Other,
}

impl PioSerialError {
    /// Every failure maps to the generic category.
    pub fn kind(&self) -> (k: SerialErrorKind)
        ensures
            k is Other,
    {
        SerialErrorKind::Other
    }
}

} // verus!
