//! Error taxonomy of the library.
//!
//! Hardware-side failures are fatal to the whole pipeline: a display that
//! cannot be identified or driven cannot be worked around. Quantisation-side
//! failures are reported once to the user and end the run.

use vstd::prelude::*;

verus! {

/// A failure in the display hardware layer.
#[derive(Clone, Copy, Debug, PartialEq, Eq, Structural)]
pub enum HardwareError {
    /// The identity-chip bus transaction failed at the transport layer.
    IdentityReadFailed,
    /// The identity record's colour byte is not one of the recognised values.
    UnknownColorMode,
    /// The identity record reports a geometry no supported panel has: a
    /// zero width or height (the descriptor invariant requires both
    /// positive), or one whose pixel count the packed frame format cannot
    /// carry.
    InvalidGeometry,
    /// A signal line (reset, data/command, busy, chip select) could not be acquired.
    SignalLineFailed,
    /// The serial bus could not be opened or written.
    SerialBusFailed,
    /// The busy line stayed asserted past the hard deadline of a bounded wait.
    Timeout,
}

/// A failure in the image quantisation layer.
#[derive(Clone, Copy, Debug, PartialEq, Eq, Structural)]
pub enum QuantizeError {
    /// The external quantisation engine rejected its input, or returned a
    /// palette entry with no exact match in the palette it was given.
    EngineFailure,
}

} // verus!
