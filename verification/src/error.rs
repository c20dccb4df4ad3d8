//! The errors that a rotation can end in.

use vstd::prelude::*;

use crate::command::Operation;

verus! {

/// The part of a configuration that was found unusable.
#[derive(Debug, Clone, Copy, PartialEq, Eq, Structural)]
pub enum ConfigFault {
    /// The block size is none of 32, 48 and 64; the field holds the size that was asked for.
    Block(u8),
    /// The device name is empty.
    Device,
    /// The network prefix is empty.
    Network,
    /// The number of addresses is zero.
    Count,
    /// The rotation interval is zero.
    Interval,
}

/// A command against the interface that did not end well.
#[derive(Debug, Clone, PartialEq, Eq)]
pub struct OsError {
    /// What the command was meant to do.
    pub operation: Operation,
    /// The exit code of the command, where it ran to an end of its own.
    pub status: Option<i32>,
    /// What the command, or the attempt to start it, had to say.
    pub diagnostic: String,
}

/// Why a rotation did not go on.
#[derive(Debug, Clone, PartialEq, Eq)]
pub enum RotatorError {
    /// The configuration cannot be used.
    InvalidConfig(ConfigFault),
    /// Every candidate of one cycle was already assigned.
    GenerationExhausted,
    /// A command against the interface failed.
    OsOperationFailed(OsError),
}

} // verus!
