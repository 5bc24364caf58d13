//! Failures that end a console run.
use vstd::prelude::*;

verus! {

/// Why a scan or a session stopped with a failure.
#[derive(Clone, Copy, Debug, PartialEq, Eq, Structural)]
pub enum Error {
    /// The machine offers no Bluetooth adapter.
    NoAdapter,
    /// The target address is not a colon-separated hardware address.
    InvalidAddr,
    /// The adapter's event stream ended before the work was done.
    AdapterStopped,
    /// The connected device lacks the serial notify/write characteristic.
    NotHMDevice,
    /// Reading the user's input failed.
    Terminal,
    /// A command arrived before the previous one was fully sent.
    OutOfTurn,
    /// The interactive input source went away.
    Unknown,
}

} // verus!
