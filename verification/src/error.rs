//! What can go wrong, by kind.

use vstd::prelude::*;

verus! {

/// A failure that is expected to pass: the operation is tried again after a
/// wait, and the height it was for is neither skipped nor counted as done.
#[derive(Clone, Copy, Debug, PartialEq, Eq, Structural)]
pub enum Failure {
    /// The node could not be reached, or the exchange broke off.
    Transport,
    /// The node answered, but not with a reply that can be read.
    Protocol,
    /// The checkpoint store did not take or give the checkpoint.
    Persistence,
    /// The stream did not take the block's events.
    Publish,
}

/// A configuration that cannot be run with. It is found at start-up and ends
/// the process.
#[derive(Clone, Copy, Debug, PartialEq, Eq, Structural)]
pub enum ConfigError {
    /// No address of the node is given.
    MissingEndpoint,
    /// The first retry delay is longer than the longest one.
    BackoffOutOfOrder,
}

impl Failure {
    /// A short name for logs.
    pub fn describe(&self) -> (text: &'static str)
        ensures
            text@ == match *self {
                Failure::Transport => "transport error"@,
                Failure::Protocol => "protocol error"@,
                Failure::Persistence => "persistence error"@,
                Failure::Publish => "publish error"@,
            },
    {
        match self {
            Failure::Transport => "transport error",
            Failure::Protocol => "protocol error",
            Failure::Persistence => "persistence error",
            Failure::Publish => "publish error",
        }
    }
}

impl ConfigError {
    /// A short name for logs.
    pub fn describe(&self) -> (text: &'static str)
        ensures
            text@ == match *self {
                ConfigError::MissingEndpoint => "the address of the node is missing"@,
                ConfigError::BackoffOutOfOrder =>
                    "the initial retry delay exceeds the maximum"@,
            },
    {
        match self {
            ConfigError::MissingEndpoint => "the address of the node is missing",
            ConfigError::BackoffOutOfOrder => "the initial retry delay exceeds the maximum",
        }
    }
}

} // verus!
