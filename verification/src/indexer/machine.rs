//! The loop as a value that a driver feeds with events.
//!
//! The driver asks [`Indexer::pending`] what to do, does it, and reports the
//! outcome to [`Indexer::step`]; so on until the action is [`Action::Stop`].
//! The indexer itself never waits and never fails.

use crate::backoff::{Backoff, RetryState};
use crate::config::{Config, Start};
use crate::error::Failure;
use crate::events::BlockEvents;
use crate::indexer::model::{ActionView, EventView, IndexerState, Phase, Stage};
use vstd::prelude::*;

verus! {

/// What the driver reports to the loop.
#[derive(Debug)]
pub enum Event {
    /// The checkpoint store held this checkpoint, or none.
    CheckpointLoaded(Option<u64>),
    /// The node's newest height is this.
    LatestHeight(u64),
    /// The node gave these events for the height asked for.
    BlockFetched(BlockEvents),
    /// The stream took the events.
    Published,
    /// The checkpoint store took the height.
    CheckpointSaved,
    /// What was asked for failed.
    Failed(Failure),
    /// The wait is over, or was cut short.
    Woke,
}

impl View for Event {
    type V = EventView;

    open spec fn view(&self) -> EventView {
        match *self {
            Event::CheckpointLoaded(checkpoint) => EventView::CheckpointLoaded(checkpoint),
            Event::LatestHeight(latest) => EventView::LatestHeight(latest),
            Event::BlockFetched(events) => EventView::BlockFetched(events@),
            Event::Published => EventView::Published,
            Event::CheckpointSaved => EventView::CheckpointSaved,
            Event::Failed(failure) => EventView::Failed(failure),
            Event::Woke => EventView::Woke,
        }
    }
}

/// What the loop asks of the driver.
#[derive(Clone, Copy, Debug, PartialEq, Eq)]
pub enum Action<'a> {
    /// Read the checkpoint and report `CheckpointLoaded`.
    LoadCheckpoint,
    /// Ask the node for its newest height and report `LatestHeight`.
    QueryLatest,
    /// Fetch the events of this height and report `BlockFetched`.
    FetchBlock { height: u64 },
    /// Publish these events as those of this height and report `Published`.
    Publish { height: u64, events: &'a BlockEvents },
    /// Save this height as the checkpoint and report `CheckpointSaved`.
    SaveCheckpoint { height: u64 },
    /// Wait this long, in milliseconds, because of a failure; report `Woke`.
    Backoff { delay: u64 },
    /// Wait this long, in milliseconds, because the node has nothing new;
    /// report `Woke`.
    CaughtUp { delay: u64 },
    /// End the loop.
    Stop,
}

impl<'a> View for Action<'a> {
    type V = ActionView;

    open spec fn view(&self) -> ActionView {
        match *self {
            Action::LoadCheckpoint => ActionView::LoadCheckpoint,
            Action::QueryLatest => ActionView::QueryLatest,
            Action::FetchBlock { height } => ActionView::FetchBlock { height },
            Action::Publish { height, events } => ActionView::Publish { height, events: events@ },
            Action::SaveCheckpoint { height } => ActionView::SaveCheckpoint { height },
            Action::Backoff { delay } => ActionView::Backoff { delay },
            Action::CaughtUp { delay } => ActionView::CaughtUp { delay },
            Action::Stop => ActionView::Stop,
        }
    }
}

/// All of the loop's state but the events it holds.
#[derive(Clone, Copy, Debug)]
struct Control {
    start: Start,
    poll_interval: u64,
    backoff: Backoff,
    phase: Phase,
    checkpoint: Option<u64>,
    target: Option<u64>,
    retry: RetryState,
    shutdown: bool,
}

/// The indexing loop. It owns the cursor: nothing else moves the target
/// height or decides what is saved.
#[derive(Debug)]
pub struct Indexer {
    control: Control,
    held: BlockEvents,
}

impl View for Indexer {
    type V = IndexerState;

    closed spec fn view(&self) -> IndexerState {
        IndexerState {
            start: self.control.start,
            poll_interval: self.control.poll_interval,
            backoff: self.control.backoff,
            phase: self.control.phase,
            checkpoint: self.control.checkpoint,
            target: self.control.target,
            held: self.held@,
            retry: self.control.retry,
            shutdown: self.control.shutdown,
        }
    }
}

impl Indexer {
    #[verifier::type_invariant]
    spec fn valid(self) -> bool {
        self@.wf()
    }

    /// A loop that has not done anything yet: it asks for the checkpoint.
    pub fn new(config: &Config) -> (indexer: Indexer)
        ensures
            indexer@ == IndexerState::initial(
                config@.start,
                config@.poll_interval,
                config@.backoff,
            ),
            indexer@.wf(),
    {
        let backoff = config.backoff();
        let indexer = Indexer {
            control: Control {
                start: config.start(),
                poll_interval: config.poll_interval(),
                backoff,
                phase: Phase::Working(Stage::Loading),
                checkpoint: None,
                target: None,
                retry: RetryState::new(),
                shutdown: false,
            },
            held: BlockEvents::empty(),
        };
        indexer
    }

    /// Takes in what the driver reports and moves on. An event that does not
    /// belong to what the loop is waiting for changes nothing.
    pub fn step(&mut self, event: Event)
        ensures
            final(self)@ == old(self)@.next(event@),
            old(self)@.wf(),
            final(self)@.wf(),
    {
        proof {
            use_type_invariant(&*self);
        }
        let mut control = self.control;
        match control.phase {
            Phase::Working(stage) => match event {
                Event::Failed(_) => {
                    control.retry.record_failure(&control.backoff);
                    control.phase = Phase::Backoff(stage);
                    self.control = control;
                },
                Event::CheckpointLoaded(checkpoint) => {
                    if matches!(stage, Stage::Loading) {
                        control.checkpoint = checkpoint;
                        control.retry = RetryState::new();
                        if checkpoint == Some(u64::MAX) {
                            control.target = None;
                            control.phase = Phase::Stopped;
                        } else {
                            control.target = match checkpoint {
                                Some(height) => Some(height + 1),
                                None => match control.start {
                                    Start::Height(height) => Some(height),
                                    Start::Latest => None,
                                },
                            };
                            control.phase = if control.shutdown {
                                Phase::Stopped
                            } else {
                                Phase::Working(Stage::DetermineTarget)
                            };
                        }
                        self.control = control;
                    }
                },
                Event::LatestHeight(latest) => {
                    if matches!(stage, Stage::DetermineTarget) {
                        let target = match control.target {
                            Some(height) => height,
                            None => latest,
                        };
                        control.target = Some(target);
                        control.phase = if target > latest {
                            Phase::CaughtUp
                        } else {
                            Phase::Working(Stage::Fetching)
                        };
                        control.retry = RetryState::new();
                        self.control = control;
                    }
                },
                Event::BlockFetched(events) => {
                    if matches!(stage, Stage::Fetching) {
                        control.phase = Phase::Working(Stage::Publishing);
                        control.retry = RetryState::new();
                        self.control = control;
                        self.held = events;
                    }
                },
                Event::Published => {
                    if matches!(stage, Stage::Publishing) {
                        control.phase = Phase::Working(Stage::Checkpointing);
                        control.retry = RetryState::new();
                        self.control = control;
                        self.held = BlockEvents::empty();
                    }
                },
                Event::CheckpointSaved => {
                    if matches!(stage, Stage::Checkpointing) {
                        let height = control.target.unwrap();
                        control.checkpoint = Some(height);
                        control.retry = RetryState::new();
                        if height == u64::MAX {
                            control.target = None;
                            control.phase = Phase::Stopped;
                        } else {
                            control.target = Some(height + 1);
                            control.phase = if control.shutdown {
                                Phase::Stopped
                            } else {
                                Phase::Working(Stage::DetermineTarget)
                            };
                        }
                        self.control = control;
                    }
                },
                Event::Woke => {},
            },
            Phase::Backoff(stage) => match event {
                Event::Woke => {
                    control.phase = if control.shutdown {
                        Phase::Stopped
                    } else {
                        Phase::Working(stage)
                    };
                    self.control = control;
                },
                _ => {},
            },
            Phase::CaughtUp => match event {
                Event::Woke => {
                    control.phase = if control.shutdown {
                        Phase::Stopped
                    } else {
                        Phase::Working(Stage::DetermineTarget)
                    };
                    self.control = control;
                },
                _ => {},
            },
            Phase::Stopped => {},
        }
    }

    /// What the loop is asking for: the action whose outcome it awaits. The
    /// events to publish are lent, not handed over: they stay with the loop
    /// until the stream has taken them.
    pub fn pending(&self) -> (action: Action<'_>)
        ensures
            action@ == self@.pending(),
            self@.wf(),
    {
        proof {
            use_type_invariant(self);
        }
        match self.control.phase {
            Phase::Working(stage) => match stage {
                Stage::Loading => Action::LoadCheckpoint,
                Stage::DetermineTarget => Action::QueryLatest,
                Stage::Fetching => Action::FetchBlock { height: self.control.target.unwrap() },
                Stage::Publishing => Action::Publish {
                    height: self.control.target.unwrap(),
                    events: &self.held,
                },
                Stage::Checkpointing => Action::SaveCheckpoint {
                    height: self.control.target.unwrap(),
                },
            },
            Phase::Backoff(_) => Action::Backoff { delay: self.control.retry.delay },
            Phase::CaughtUp => Action::CaughtUp { delay: self.control.poll_interval },
            Phase::Stopped => Action::Stop,
        }
    }

    /// Asks the loop to end. It ends where that leaves nothing half done: at
    /// the top of the next cycle, or when the wait it is in is over.
    pub fn request_shutdown(&mut self)
        ensures
            final(self)@ == old(self)@.asked_to_stop(),
            final(self)@.wf(),
    {
        proof {
            use_type_invariant(&*self);
        }
        let mut control = self.control;
        control.shutdown = true;
        self.control = control;
    }

    /// Where the loop stands.
    pub fn phase(&self) -> (phase: Phase)
        ensures
            phase == self@.phase,
    {
        self.control.phase
    }

    /// The last height that was saved, or that the store held at start-up.
    pub fn checkpoint(&self) -> (checkpoint: Option<u64>)
        ensures
            checkpoint == self@.checkpoint,
    {
        self.control.checkpoint
    }

    /// The height in progress, or the one that comes next.
    pub fn target(&self) -> (target: Option<u64>)
        ensures
            target == self@.target,
    {
        self.control.target
    }

    /// The failures of the stage in progress, and the wait after the last.
    pub fn retry(&self) -> (retry: RetryState)
        ensures
            retry == self@.retry,
    {
        self.control.retry
    }

    /// Whether the loop was asked to end.
    pub fn shutdown_requested(&self) -> (asked: bool)
        ensures
            asked == self@.shutdown,
    {
        self.control.shutdown
    }
}

} // verus!
