//! Error taxonomy of the driver.

use vstd::prelude::*;

verus! {

/// Why the initialisation sequence did not complete.
#[derive(Clone, Copy, Debug, PartialEq, Eq, Structural)]
pub enum InitError {
    /// The bus or a control line reported a failure.
    BusFault,
    /// The busy line never cleared within the configured bound.
    Timeout,
}

/// Why a command could not be delivered after initialisation.
#[derive(Clone, Copy, Debug, PartialEq, Eq, Structural)]
pub enum CommandError {
    /// The bus or a control line reported a failure.
    BusFault,
}

/// Everything an operation of this crate can fail with.
#[derive(Clone, Copy, Debug, PartialEq, Eq, Structural)]
pub enum Error {
    /// The initialisation sequence failed.
    Init(InitError),
    /// A command failed on the bus.
    Command(CommandError),
    /// A buffer does not have the byte length its dimensions call for.
    SizeMismatch,
    /// A partial-update window is empty, out of bounds or misaligned.
    InvalidWindow,
    /// The controller has seen a failure before and refuses further work.
    DeviceFaulted,
    /// The busy line never cleared within the configured bound.
    Timeout,
}

} // verus!
