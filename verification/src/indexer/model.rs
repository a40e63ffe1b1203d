//! What the indexing loop does.
//!
//! One height is in progress at a time. Its block is fetched, its events are
//! published, its height is saved as the checkpoint, and only then does the
//! next height begin. A failure at any step leads to a wait and to another
//! try of that same step.

use crate::backoff::{Backoff, RetryState};
use crate::config::Start;
use crate::error::Failure;
use vstd::prelude::*;

verus! {

/// A step of the loop that asks something of the world outside.
#[derive(Clone, Copy, Debug, PartialEq, Eq, Structural)]
pub enum Stage {
    /// Reading the checkpoint, once, at start-up.
    Loading,
    /// Asking the node for its newest height.
    DetermineTarget,
    /// Fetching the events of the target height.
    Fetching,
    /// Publishing the events of the target height.
    Publishing,
    /// Saving the target height as the checkpoint.
    Checkpointing,
}

/// Where the loop stands.
#[derive(Clone, Copy, Debug, PartialEq, Eq, Structural)]
pub enum Phase {
    /// The operation of this stage was asked for; its outcome is awaited.
    Working(Stage),
    /// This stage failed; the loop waits before it tries the stage again.
    Backoff(Stage),
    /// The node has nothing new; the loop waits before it asks again.
    CaughtUp,
    /// The loop has ended.
    Stopped,
}

/// The state of the loop.
pub struct IndexerState {
    /// Where to begin without a checkpoint.
    pub start: Start,
    /// The caught-up wait, in milliseconds.
    pub poll_interval: u64,
    /// The bounds of the retry schedule.
    pub backoff: Backoff,
    /// Where the loop stands.
    pub phase: Phase,
    /// The last height that was saved, or that the store held at start-up.
    pub checkpoint: Option<u64>,
    /// The height in progress, or the one that comes next.
    pub target: Option<u64>,
    /// The events fetched for the target, kept until they are published.
    pub held: Seq<Seq<char>>,
    /// The failures of the stage in progress.
    pub retry: RetryState,
    /// Whether the loop was asked to end.
    pub shutdown: bool,
}

/// What the world outside reports to the loop.
pub enum EventView {
    /// The checkpoint store held this checkpoint, or none.
    CheckpointLoaded(Option<u64>),
    /// The node's newest height is this.
    LatestHeight(u64),
    /// The node gave these events for the height asked for.
    BlockFetched(Seq<Seq<char>>),
    /// The stream took the events.
    Published,
    /// The checkpoint store took the height.
    CheckpointSaved,
    /// What was asked for failed.
    Failed(Failure),
    /// The wait is over, or was cut short.
    Woke,
}

/// What the loop asks of the world outside.
pub enum ActionView {
    /// Read the checkpoint.
    LoadCheckpoint,
    /// Ask the node for its newest height.
    QueryLatest,
    /// Fetch the events of this height.
    FetchBlock { height: u64 },
    /// Publish these events as those of this height.
    Publish { height: u64, events: Seq<Seq<char>> },
    /// Save this height as the checkpoint.
    SaveCheckpoint { height: u64 },
    /// Wait this long, in milliseconds, because of a failure.
    Backoff { delay: u64 },
    /// Wait this long, in milliseconds, because the node has nothing new.
    CaughtUp { delay: u64 },
    /// Nothing more: the loop has ended.
    Stop,
}

/// The height at which a loop begins that found `checkpoint` in the store:
/// the one after the checkpoint. Without a checkpoint it is the configured
/// height, or not known before the node has been asked. After the largest
/// height there is none.
pub open spec fn first_target(start: Start, checkpoint: Option<u64>) -> Option<u64> {
    match checkpoint {
        Some(height) => if height < u64::MAX {
            Some((height + 1) as u64)
        } else {
            None
        },
        None => match start {
            Start::Height(height) => Some(height),
            Start::Latest => None,
        },
    }
}

/// Whether `event` reports that the operation of `stage` succeeded.
pub open spec fn answers(stage: Stage, event: EventView) -> bool {
    match stage {
        Stage::Loading => event is CheckpointLoaded,
        Stage::DetermineTarget => event is LatestHeight,
        Stage::Fetching => event is BlockFetched,
        Stage::Publishing => event is Published,
        Stage::Checkpointing => event is CheckpointSaved,
    }
}

impl IndexerState {
    /// The state of a loop that has not done anything yet.
    pub open spec fn initial(start: Start, poll_interval: u64, backoff: Backoff) -> IndexerState {
        IndexerState {
            start,
            poll_interval,
            backoff,
            phase: Phase::Working(Stage::Loading),
            checkpoint: None,
            target: None,
            held: Seq::empty(),
            retry: RetryState::fresh(),
            shutdown: false,
        }
    }

    /// What always holds of the state of a loop.
    pub open spec fn wf(self) -> bool {
        &&& self.backoff.initial <= self.backoff.max
        &&& self.retry.wf(self.backoff)
        &&& (self.phase == Phase::Working(Stage::Loading) || self.phase == Phase::Backoff(
            Stage::Loading,
        )) ==> self.checkpoint is None && self.target is None
        &&& self.target is None ==> !self.stage_needs_target()
        &&& self.target is None && self.checkpoint is Some ==> self.phase is Stopped
        &&& self.checkpoint is Some && self.target is Some ==> self.target.unwrap()
            == self.checkpoint.unwrap() + 1
    }

    /// Whether the loop stands where a target height is at work.
    pub open spec fn stage_needs_target(self) -> bool {
        match self.phase {
            Phase::Working(stage) | Phase::Backoff(stage) => stage == Stage::Fetching || stage
                == Stage::Publishing || stage == Stage::Checkpointing,
            Phase::CaughtUp => true,
            Phase::Stopped => false,
        }
    }

    /// The same state with no failure counted.
    pub open spec fn rested(self) -> IndexerState {
        IndexerState { retry: RetryState::fresh(), ..self }
    }

    /// The same state after the loop was asked to end.
    pub open spec fn asked_to_stop(self) -> IndexerState {
        IndexerState { shutdown: true, ..self }
    }

    /// The top of a cycle: the loop ends here if it was asked to, else it
    /// asks the node for its newest height.
    pub open spec fn at_cycle_top(self) -> IndexerState {
        IndexerState {
            phase: if self.shutdown {
                Phase::Stopped
            } else {
                Phase::Working(Stage::DetermineTarget)
            },
            retry: RetryState::fresh(),
            ..self
        }
    }

    /// The state after the checkpoint store reported `checkpoint`.
    pub open spec fn loaded(self, checkpoint: Option<u64>) -> IndexerState {
        if checkpoint == Some(u64::MAX) {
            IndexerState {
                checkpoint,
                target: None,
                phase: Phase::Stopped,
                retry: RetryState::fresh(),
                ..self
            }
        } else {
            IndexerState {
                checkpoint,
                target: first_target(self.start, checkpoint),
                ..self
            }.at_cycle_top()
        }
    }

    /// The state after the node reported `latest` as its newest height. A
    /// target beyond it waits; any other is fetched.
    pub open spec fn located(self, latest: u64) -> IndexerState {
        let target = match self.target {
            Some(height) => height,
            None => latest,
        };
        IndexerState {
            target: Some(target),
            phase: if target > latest {
                Phase::CaughtUp
            } else {
                Phase::Working(Stage::Fetching)
            },
            retry: RetryState::fresh(),
            ..self
        }
    }

    /// The state after the target was saved as the checkpoint: the next
    /// height becomes the target, at the top of a new cycle. After the
    /// largest height the loop ends.
    pub open spec fn saved(self) -> IndexerState {
        let height = self.target.unwrap();
        if height == u64::MAX {
            IndexerState {
                checkpoint: Some(height),
                target: None,
                phase: Phase::Stopped,
                retry: RetryState::fresh(),
                ..self
            }
        } else {
            IndexerState {
                checkpoint: Some(height),
                target: Some((height + 1) as u64),
                ..self
            }.at_cycle_top()
        }
    }

    /// The state after the operation of `stage` succeeded with `event`.
    pub open spec fn advanced(self, stage: Stage, event: EventView) -> IndexerState {
        match event {
            EventView::CheckpointLoaded(checkpoint) => self.loaded(checkpoint),
            EventView::LatestHeight(latest) => self.located(latest),
            EventView::BlockFetched(events) => IndexerState {
                phase: Phase::Working(Stage::Publishing),
                held: events,
                retry: RetryState::fresh(),
                ..self
            },
            EventView::Published => IndexerState {
                phase: Phase::Working(Stage::Checkpointing),
                held: Seq::empty(),
                retry: RetryState::fresh(),
                ..self
            },
            EventView::CheckpointSaved => self.saved(),
            _ => self,
        }
    }

    /// The state after a wait: the loop ends if it was asked to, else it
    /// takes up `stage`.
    pub open spec fn woken(self, stage: Stage) -> IndexerState {
        IndexerState {
            phase: if self.shutdown {
                Phase::Stopped
            } else {
                Phase::Working(stage)
            },
            ..self
        }
    }

    /// The state after `event`. An event that does not belong to what the
    /// loop is waiting for changes nothing.
    pub open spec fn next(self, event: EventView) -> IndexerState {
        match self.phase {
            Phase::Working(stage) => if event is Failed {
                IndexerState {
                    phase: Phase::Backoff(stage),
                    retry: self.retry.after_failure(self.backoff),
                    ..self
                }
            } else if answers(stage, event) {
                self.advanced(stage, event)
            } else {
                self
            },
            Phase::Backoff(stage) => if event is Woke {
                self.woken(stage)
            } else {
                self
            },
            Phase::CaughtUp => if event is Woke {
                self.woken(Stage::DetermineTarget)
            } else {
                self
            },
            Phase::Stopped => self,
        }
    }

    /// What the loop is asking for in this state.
    pub open spec fn pending(self) -> ActionView {
        match self.phase {
            Phase::Working(Stage::Loading) => ActionView::LoadCheckpoint,
            Phase::Working(Stage::DetermineTarget) => ActionView::QueryLatest,
            Phase::Working(Stage::Fetching) => ActionView::FetchBlock {
                height: self.target.unwrap(),
            },
            Phase::Working(Stage::Publishing) => ActionView::Publish {
                height: self.target.unwrap(),
                events: self.held,
            },
            Phase::Working(Stage::Checkpointing) => ActionView::SaveCheckpoint {
                height: self.target.unwrap(),
            },
            Phase::Backoff(_) => ActionView::Backoff { delay: self.retry.delay },
            Phase::CaughtUp => ActionView::CaughtUp { delay: self.poll_interval },
            Phase::Stopped => ActionView::Stop,
        }
    }

    /// The state after all of `events`, in order.
    pub open spec fn run(self, events: Seq<EventView>) -> IndexerState
        decreases events.len(),
    {
        if events.len() == 0 {
            self
        } else {
            self.run(events.drop_last()).next(events.last())
        }
    }
}

} // verus!
