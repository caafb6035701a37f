//! Error kinds of the hash chain kernel.

use vstd::prelude::*;

verus! {

/// What went wrong, at the granularity the surrounding policy cares about.
#[derive(Clone, Copy, Debug, PartialEq, Eq, Structural)]
pub enum Error {
    /// GPIO, power or chip detection failed while bringing a hash chain up;
    /// the chain never starts.
    Instantiation,
    /// The requested baud rate cannot be produced by the oscillator within
    /// tolerance; the configuration step must surface this, never clamp.
    BaudRate,
    /// The hardware link failed during a send or a receive; the chain stops
    /// issuing work and reports the fault.
    Transport,
}

impl Error {
    /// A short human-readable name for the error, for reporting at the edge.
    pub fn describe(&self) -> (r: &'static str)
        ensures
            r@ == match self {
                Error::Instantiation => "instantiation failed"@,
                Error::BaudRate => "unsupported baud rate"@,
                Error::Transport => "hardware transport failed"@,
            },
    {
        match self {
            Error::Instantiation => "instantiation failed",
            Error::BaudRate => "unsupported baud rate",
            Error::Transport => "hardware transport failed",
        }
    }
}

} // verus!
