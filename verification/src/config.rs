//! The indexer's configuration.

use crate::backoff::Backoff;
use crate::error::ConfigError;
use vstd::prelude::*;

verus! {

/// Where indexing begins when the checkpoint store holds no checkpoint.
#[derive(Clone, Copy, Debug, PartialEq, Eq, Structural)]
pub enum Start {
    /// At this height.
    Height(u64),
    /// At the height that is the node's newest when it is first asked.
    Latest,
}

/// What the configuration says, as plain values.
pub struct ConfigView {
    pub rpc_provider: Seq<char>,
    pub start: Start,
    pub poll_interval: u64,
    pub backoff: Backoff,
}

impl ConfigView {
    /// A node address is given and the retry delays are in order.
    pub open spec fn wf(self) -> bool {
        &&& self.rpc_provider.len() > 0
        &&& self.backoff.initial <= self.backoff.max
    }
}

/// What `Config::new` makes of its arguments.
pub open spec fn checked(
    rpc_provider: Seq<char>,
    start: Start,
    poll_interval: u64,
    initial_backoff: u64,
    max_backoff: u64,
) -> Result<ConfigView, ConfigError> {
    if rpc_provider.len() == 0 {
        Err(ConfigError::MissingEndpoint)
    } else if initial_backoff > max_backoff {
        Err(ConfigError::BackoffOutOfOrder)
    } else {
        Ok(
            ConfigView {
                rpc_provider,
                start,
                poll_interval,
                backoff: Backoff { initial: initial_backoff, max: max_backoff },
            },
        )
    }
}

/// A configuration that was checked. All times are in milliseconds.
#[derive(Debug)]
pub struct Config {
    rpc_provider: String,
    start: Start,
    poll_interval: u64,
    backoff: Backoff,
}

impl View for Config {
    type V = ConfigView;

    closed spec fn view(&self) -> ConfigView {
        ConfigView {
            rpc_provider: self.rpc_provider@,
            start: self.start,
            poll_interval: self.poll_interval,
            backoff: self.backoff,
        }
    }
}

impl Config {
    #[verifier::type_invariant]
    spec fn valid(self) -> bool {
        self@.wf()
    }

    /// Checks the values and keeps them. The address of the node must not be
    /// empty, and the first retry delay must not exceed the longest.
    pub fn new(
        rpc_provider: String,
        start: Start,
        poll_interval: u64,
        initial_backoff: u64,
        max_backoff: u64,
    ) -> (r: Result<Config, ConfigError>)
        ensures
            match r {
                Ok(config) => checked(
                    rpc_provider@,
                    start,
                    poll_interval,
                    initial_backoff,
                    max_backoff,
                ) == Ok::<ConfigView, ConfigError>(config@) && config@.wf(),
                Err(error) => checked(
                    rpc_provider@,
                    start,
                    poll_interval,
                    initial_backoff,
                    max_backoff,
                ) == Err::<ConfigView, ConfigError>(error),
            },
    {
        if rpc_provider.as_str().is_empty() {
            Err(ConfigError::MissingEndpoint)
        } else if initial_backoff > max_backoff {
            Err(ConfigError::BackoffOutOfOrder)
        } else {
            Ok(
                Config {
                    rpc_provider,
                    start,
                    poll_interval,
                    backoff: Backoff { initial: initial_backoff, max: max_backoff },
                },
            )
        }
    }

    /// The address of the node.
    pub fn rpc_provider(&self) -> (address: &str)
        ensures
            address@ == self@.rpc_provider,
            self@.wf(),
    {
        proof {
            use_type_invariant(self);
        }
        self.rpc_provider.as_str()
    }

    /// Where indexing begins without a checkpoint.
    pub fn start(&self) -> (start: Start)
        ensures
            start == self@.start,
    {
        self.start
    }

    /// The wait between two looks at the node once the indexer has caught up.
    pub fn poll_interval(&self) -> (interval: u64)
        ensures
            interval == self@.poll_interval,
    {
        self.poll_interval
    }

    /// The bounds of the retry schedule.
    pub fn backoff(&self) -> (backoff: Backoff)
        ensures
            backoff == self@.backoff,
            backoff.initial <= backoff.max,
    {
        proof {
            use_type_invariant(self);
        }
        self.backoff
    }
}

} // verus!
