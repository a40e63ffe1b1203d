//! What holds of whole runs of the loop.
//!
//! Everything here is stated of [`IndexerState`], the model that
//! [`Indexer`](crate::indexer::machine::Indexer) is proved to follow, and
//! holds for every sequence of events, whatever the world outside does.

use crate::backoff::{backoff_delay, lemma_count_saturates, lemma_schedule, Backoff, RetryState};
use crate::config::Start;
use crate::error::Failure;
use crate::indexer::model::{answers, first_target, ActionView, EventView, IndexerState, Phase, Stage};
use vstd::prelude::*;

verus! {

/// The height that an action is about, if it is about one.
pub open spec fn action_height(action: ActionView) -> Option<u64> {
    match action {
        ActionView::FetchBlock { height } => Some(height),
        ActionView::Publish { height, .. } => Some(height),
        ActionView::SaveCheckpoint { height } => Some(height),
        _ => None,
    }
}

/// The heights whose checkpoints the store confirmed during a run, in order.
pub open spec fn saved_heights(state: IndexerState, events: Seq<EventView>) -> Seq<u64>
    decreases events.len(),
{
    if events.len() == 0 {
        Seq::empty()
    } else {
        let before = state.run(events.drop_last());
        let earlier = saved_heights(state, events.drop_last());
        if before.phase == Phase::Working(Stage::Checkpointing) && events.last()
            is CheckpointSaved {
            earlier.push(before.target.unwrap())
        } else {
            earlier
        }
    }
}

/// The blocks whose events the stream confirmed during a run, in order, each
/// with its height.
pub open spec fn published_blocks(state: IndexerState, events: Seq<EventView>) -> Seq<
    (u64, Seq<Seq<char>>),
>
    decreases events.len(),
{
    if events.len() == 0 {
        Seq::empty()
    } else {
        let before = state.run(events.drop_last());
        let earlier = published_blocks(state, events.drop_last());
        if before.phase == Phase::Working(Stage::Publishing) && events.last() is Published {
            earlier.push((before.target.unwrap(), before.held))
        } else {
            earlier
        }
    }
}

/// A loop that has not done anything yet is well formed.
pub proof fn lemma_initial_is_well_formed(start: Start, poll_interval: u64, backoff: Backoff)
    requires
        backoff.initial <= backoff.max,
    ensures
        IndexerState::initial(start, poll_interval, backoff).wf(),
{
}

/// No event leads out of the well-formed states, and neither does the
/// request to end.
pub proof fn lemma_next_is_well_formed(state: IndexerState, event: EventView)
    requires
        state.wf(),
    ensures
        state.next(event).wf(),
        state.asked_to_stop().wf(),
{
    lemma_schedule(state.backoff, state.retry.failures as nat);
    lemma_schedule(state.backoff, state.retry.failures as nat + 1);
    lemma_count_saturates(state.backoff);
}

/// No run leads out of the well-formed states.
pub proof fn lemma_run_is_well_formed(state: IndexerState, events: Seq<EventView>)
    requires
        state.wf(),
    ensures
        state.run(events).wf(),
    decreases events.len(),
{
    if events.len() > 0 {
        lemma_run_is_well_formed(state, events.drop_last());
        lemma_next_is_well_formed(state.run(events.drop_last()), events.last());
    }
}

/// A run in two parts is the run of the second part from where the first
/// part ends, and the store and the stream confirm in the two parts together
/// what they confirm in each.
pub proof fn lemma_run_in_parts(state: IndexerState, first: Seq<EventView>, second: Seq<EventView>)
    ensures
        state.run(first + second) == state.run(first).run(second),
        saved_heights(state, first + second) == saved_heights(state, first) + saved_heights(
            state.run(first),
            second,
        ),
        published_blocks(state, first + second) == published_blocks(state, first)
            + published_blocks(state.run(first), second),
    decreases second.len(),
{
    if second.len() > 0 {
        assert((first + second).drop_last() =~= first + second.drop_last());
        lemma_run_in_parts(state, first, second.drop_last());
    }
}

/// In every state one height at most is at work, and it is the one after the
/// checkpoint: whatever the loop asks to fetch, publish or save.
pub proof fn lemma_one_height_in_flight(state: IndexerState)
    requires
        state.wf(),
    ensures
        action_height(state.pending()) is Some ==> action_height(state.pending()) == state.target,
        action_height(state.pending()) is Some && state.checkpoint is Some ==> action_height(
            state.pending(),
        ).unwrap() == state.checkpoint.unwrap() + 1,
{
}

/// The saved heights of a run are contiguous: each is the one after the
/// height saved before it, so none is skipped and none is saved twice. The
/// first is the target the run began with, the one after the checkpoint it
/// began with; the last is the checkpoint the run ends with. A run that saves
/// nothing leaves checkpoint and target as they were.
pub proof fn lemma_saved_heights_are_contiguous(state: IndexerState, events: Seq<EventView>)
    requires
        state.wf(),
    ensures
        ({
            let log = saved_heights(state, events);
            let end = state.run(events);
            &&& end.wf()
            &&& forall|i: int| 0 <= i < log.len() ==> #[trigger] log[i] == log[0] + i
            &&& log.len() > 0 ==> end.checkpoint == Some(log.last())
            &&& log.len() > 0 && state.target is Some ==> log[0] == state.target.unwrap()
            &&& log.len() > 0 && state.checkpoint is Some ==> log[0] == state.checkpoint.unwrap()
                + 1
            &&& log.len() == 0 && state.target is Some ==> end.target == state.target
            &&& log.len() == 0 && state.checkpoint is Some ==> end.checkpoint == state.checkpoint
        }),
    decreases events.len(),
{
    if events.len() > 0 {
        lemma_saved_heights_are_contiguous(state, events.drop_last());
        lemma_next_is_well_formed(state.run(events.drop_last()), events.last());
    }
}

/// A run that begins with a checkpoint never goes back behind it: the
/// checkpoint only grows, and whatever is asked for, published or saved on
/// the way is for a height beyond the one the run began with.
pub proof fn lemma_heights_stay_above_checkpoint(state: IndexerState, events: Seq<EventView>)
    requires
        state.wf(),
        state.checkpoint is Some,
    ensures
        ({
            let floor = state.checkpoint.unwrap();
            let end = state.run(events);
            let saved = saved_heights(state, events);
            let published = published_blocks(state, events);
            &&& end.wf()
            &&& end.checkpoint is Some && end.checkpoint.unwrap() >= floor
            &&& action_height(end.pending()) matches Some(height) ==> height > floor
            &&& forall|i: int| 0 <= i < saved.len() ==> #[trigger] saved[i] > floor
            &&& forall|i: int| 0 <= i < published.len() ==> (#[trigger] published[i]).0 > floor
        }),
    decreases events.len(),
{
    if events.len() > 0 {
        let floor = state.checkpoint.unwrap();
        let saved_before = saved_heights(state, events.drop_last());
        let published_before = published_blocks(state, events.drop_last());
        lemma_heights_stay_above_checkpoint(state, events.drop_last());
        lemma_next_is_well_formed(state.run(events.drop_last()), events.last());
        let saved = saved_heights(state, events);
        let published = published_blocks(state, events);
        assert forall|i: int| 0 <= i < saved.len() implies #[trigger] saved[i] > floor by {
            if i < saved_before.len() {
                assert(saved[i] == saved_before[i]);
            }
        }
        assert forall|i: int| 0 <= i < published.len() implies (#[trigger] published[i]).0
            > floor by {
            if i < published_before.len() {
                assert(published[i] == published_before[i]);
            }
        }
    }
}

/// Which kind of failure is reported makes no difference, and no failure
/// moves the cursor: target, checkpoint and the events held stay as they
/// were.
pub proof fn lemma_failure_keeps_cursor(state: IndexerState, cause: Failure, other: Failure)
    ensures
        state.next(EventView::Failed(cause)) == state.next(EventView::Failed(other)),
        state.next(EventView::Failed(cause)).target == state.target,
        state.next(EventView::Failed(cause)).checkpoint == state.checkpoint,
        state.next(EventView::Failed(cause)).held == state.held,
{
}

/// Failures, each followed by the end of the wait that it leads to.
pub open spec fn failed_tries(causes: Seq<Failure>) -> Seq<EventView>
    decreases causes.len(),
{
    if causes.len() == 0 {
        Seq::empty()
    } else {
        failed_tries(causes.drop_last()).push(EventView::Failed(causes.last())).push(
            EventView::Woke,
        )
    }
}

/// However often a stage fails, the loop is back at that stage after each
/// wait with nothing changed but the count of failures, and nothing was
/// published or saved meanwhile. Counted from none, the wait after the last
/// failure is the one the schedule gives for their number.
pub proof fn lemma_failed_tries_keep_the_stage(state: IndexerState, causes: Seq<Failure>)
    requires
        state.wf(),
        state.phase is Working,
        !state.shutdown,
    ensures
        ({
            let end = state.run(failed_tries(causes));
            &&& end.wf()
            &&& end.rested() == state.rested()
            &&& saved_heights(state, failed_tries(causes)).len() == 0
            &&& published_blocks(state, failed_tries(causes)).len() == 0
            &&& state.retry == RetryState::fresh() && causes.len() <= u64::MAX ==> {
                &&& end.retry.failures == causes.len()
                &&& end.retry.delay == backoff_delay(state.backoff, causes.len())
            }
        }),
    decreases causes.len(),
{
    if causes.len() > 0 {
        let shorter = failed_tries(causes.drop_last());
        let failed = shorter.push(EventView::Failed(causes.last()));
        let tries = failed_tries(causes);
        lemma_failed_tries_keep_the_stage(state, causes.drop_last());
        assert(tries.drop_last() =~= failed);
        assert(failed.drop_last() =~= shorter);
        let before = state.run(shorter);
        lemma_next_is_well_formed(before, EventView::Failed(causes.last()));
        lemma_next_is_well_formed(
            before.next(EventView::Failed(causes.last())),
            EventView::Woke,
        );
        assert(state.run(failed) == before.next(EventView::Failed(causes.last())));
        assert(saved_heights(state, failed) == saved_heights(state, shorter));
        assert(published_blocks(state, failed) == published_blocks(state, shorter));
    }
}

/// What one event does: the state moves on by it, and the store and the
/// stream each confirm at most one thing, for the target of the state.
pub proof fn lemma_single_event(state: IndexerState, event: EventView)
    ensures
        state.run(seq![event]) == state.next(event),
        saved_heights(state, seq![event]) == if state.phase == Phase::Working(
            Stage::Checkpointing,
        ) && event is CheckpointSaved {
            seq![state.target.unwrap()]
        } else {
            Seq::empty()
        },
        published_blocks(state, seq![event]) == if state.phase == Phase::Working(
            Stage::Publishing,
        ) && event is Published {
            seq![(state.target.unwrap(), state.held)]
        } else {
            Seq::empty()
        },
{
    let alone = seq![event];
    assert(state.run(alone.drop_last()) == state);
    assert(saved_heights(state, alone.drop_last()) =~= Seq::<u64>::empty());
    assert(published_blocks(state, alone.drop_last()) =~= Seq::<(u64, Seq<Seq<char>>)>::empty());
}

/// A stage that fails any number of times and then succeeds leaves the loop
/// exactly where it would be had it succeeded at once, and the store and the
/// stream have confirmed exactly what they would have confirmed then: the
/// one save of the target where the stage is the save, the one publication
/// of the events held where it is the publication, and nothing else.
pub proof fn lemma_failures_before_success(
    state: IndexerState,
    causes: Seq<Failure>,
    event: EventView,
)
    requires
        state.wf(),
        state.phase is Working,
        !state.shutdown,
        answers(state.phase->Working_0, event),
    ensures
        ({
            let events = failed_tries(causes).push(event);
            &&& state.run(events) == state.rested().next(event)
            &&& state.run(events) == state.rested().run(seq![event])
            &&& saved_heights(state, events) == saved_heights(state.rested(), seq![event])
            &&& published_blocks(state, events) == published_blocks(state.rested(), seq![event])
            &&& saved_heights(state, events) == if state.phase == Phase::Working(
                Stage::Checkpointing,
            ) {
                seq![state.target.unwrap()]
            } else {
                Seq::empty()
            }
            &&& published_blocks(state, events) == if state.phase == Phase::Working(
                Stage::Publishing,
            ) {
                seq![(state.target.unwrap(), state.held)]
            } else {
                Seq::empty()
            }
        }),
{
    let tries = failed_tries(causes);
    lemma_failed_tries_keep_the_stage(state, causes);
    lemma_single_event(state.rested(), event);
    assert(tries.push(event).drop_last() =~= tries);
}

/// The events of one cycle for one height: the node reports its newest
/// height, gives the block, the stream takes the events and the store takes
/// the checkpoint; before each of the four, the failures given for it, each
/// followed by the end of its wait.
pub open spec fn cycle_events(
    latest: u64,
    block: Seq<Seq<char>>,
    locating: Seq<Failure>,
    fetching: Seq<Failure>,
    publishing: Seq<Failure>,
    saving: Seq<Failure>,
) -> Seq<EventView> {
    failed_tries(locating).push(EventView::LatestHeight(latest)) + failed_tries(fetching).push(
        EventView::BlockFetched(block),
    ) + failed_tries(publishing).push(EventView::Published) + failed_tries(saving).push(
        EventView::CheckpointSaved,
    )
}

/// The state at the top of the cycle that follows the one for the state's
/// target: the target is the checkpoint and the next height is the target.
/// After the largest height the loop has ended.
pub open spec fn after_cycle(state: IndexerState) -> IndexerState {
    let height = state.target.unwrap();
    IndexerState {
        checkpoint: Some(height),
        target: if height < u64::MAX {
            Some((height + 1) as u64)
        } else {
            None
        },
        phase: if height < u64::MAX {
            Phase::Working(Stage::DetermineTarget)
        } else {
            Phase::Stopped
        },
        held: Seq::empty(),
        retry: RetryState::fresh(),
        ..state
    }
}

/// A cycle for a height that the node has reaches its end whatever fails on
/// the way and however often: the height is saved exactly once, its events,
/// as the node gave them, are published exactly once, and the loop stands at
/// the top of the cycle for the next height.
pub proof fn lemma_cycle_completes(
    state: IndexerState,
    latest: u64,
    block: Seq<Seq<char>>,
    locating: Seq<Failure>,
    fetching: Seq<Failure>,
    publishing: Seq<Failure>,
    saving: Seq<Failure>,
)
    requires
        state.wf(),
        state.phase == Phase::Working(Stage::DetermineTarget),
        !state.shutdown,
        state.target is Some,
        state.target.unwrap() <= latest,
    ensures
        ({
            let events = cycle_events(latest, block, locating, fetching, publishing, saving);
            &&& state.run(events) == after_cycle(state)
            &&& saved_heights(state, events) == seq![state.target.unwrap()]
            &&& published_blocks(state, events) == seq![(state.target.unwrap(), block)]
        }),
{
    let first = failed_tries(locating).push(EventView::LatestHeight(latest));
    let second = failed_tries(fetching).push(EventView::BlockFetched(block));
    let third = failed_tries(publishing).push(EventView::Published);
    let fourth = failed_tries(saving).push(EventView::CheckpointSaved);
    let located = state.run(first);
    lemma_failures_before_success(state, locating, EventView::LatestHeight(latest));
    lemma_next_is_well_formed(state.rested(), EventView::LatestHeight(latest));
    let fetched = located.run(second);
    lemma_failures_before_success(located, fetching, EventView::BlockFetched(block));
    lemma_next_is_well_formed(located.rested(), EventView::BlockFetched(block));
    let published = fetched.run(third);
    lemma_failures_before_success(fetched, publishing, EventView::Published);
    lemma_next_is_well_formed(fetched.rested(), EventView::Published);
    lemma_failures_before_success(published, saving, EventView::CheckpointSaved);
    lemma_run_in_parts(state, first, second);
    lemma_run_in_parts(state, first + second, third);
    lemma_run_in_parts(state, first + second + third, fourth);
}

/// Failures change nothing in what a cycle comes to: with any failures at
/// any of its stages it ends in the state, with the saves and with the
/// publications of the cycle in which nothing fails.
pub proof fn lemma_cycle_ignores_failures(
    state: IndexerState,
    latest: u64,
    block: Seq<Seq<char>>,
    locating: Seq<Failure>,
    fetching: Seq<Failure>,
    publishing: Seq<Failure>,
    saving: Seq<Failure>,
)
    requires
        state.wf(),
        state.phase == Phase::Working(Stage::DetermineTarget),
        !state.shutdown,
        state.target is Some,
        state.target.unwrap() <= latest,
    ensures
        ({
            let failing = cycle_events(latest, block, locating, fetching, publishing, saving);
            let smooth = cycle_events(
                latest,
                block,
                Seq::empty(),
                Seq::empty(),
                Seq::empty(),
                Seq::empty(),
            );
            &&& smooth =~= seq![
                EventView::LatestHeight(latest),
                EventView::BlockFetched(block),
                EventView::Published,
                EventView::CheckpointSaved,
            ]
            &&& state.run(failing) == state.run(smooth)
            &&& saved_heights(state, failing) == saved_heights(state, smooth)
            &&& published_blocks(state, failing) == published_blocks(state, smooth)
        }),
{
    lemma_cycle_completes(state, latest, block, locating, fetching, publishing, saving);
    lemma_cycle_completes(
        state,
        latest,
        block,
        Seq::empty(),
        Seq::empty(),
        Seq::empty(),
        Seq::empty(),
    );
}

/// A target beyond the node's newest height is not fetched: the loop takes
/// the caught-up wait and the target stays.
pub proof fn lemma_caught_up_waits(state: IndexerState, latest: u64)
    requires
        state.wf(),
        state.phase == Phase::Working(Stage::DetermineTarget),
        state.target is Some,
        state.target.unwrap() > latest,
    ensures
        ({
            let end = state.next(EventView::LatestHeight(latest));
            &&& end.phase == Phase::CaughtUp
            &&& end.pending() == (ActionView::CaughtUp { delay: state.poll_interval })
            &&& end.target == state.target
            &&& end.checkpoint == state.checkpoint
        }),
{
}

/// A restart after a saved checkpoint resumes with the next height. Where
/// the store took the save of a height, it holds that height; a loop that
/// starts anew and finds it there takes the height after it as its target,
/// and nothing it ever asks to fetch, publish or save, and nothing the stream
/// or the store confirms to it, is for that height or one before. After the
/// largest height there is nothing to resume.
pub proof fn lemma_restart_resumes_after_checkpoint(
    state: IndexerState,
    events: Seq<EventView>,
)
    requires
        state.wf(),
        state.phase == Phase::Working(Stage::Checkpointing),
    ensures
        ({
            let height = state.target.unwrap();
            let stored = state.next(EventView::CheckpointSaved).checkpoint;
            let restarted = IndexerState::initial(
                state.start,
                state.poll_interval,
                state.backoff,
            ).next(EventView::CheckpointLoaded(stored));
            let later = restarted.run(events);
            let saved = saved_heights(restarted, events);
            let published = published_blocks(restarted, events);
            &&& stored == Some(height)
            &&& restarted.target == first_target(state.start, stored)
            &&& height < u64::MAX ==> restarted.target == Some((height + 1) as u64)
            &&& height == u64::MAX ==> restarted.phase == Phase::Stopped
            &&& action_height(later.pending()) matches Some(asked) ==> asked > height
            &&& forall|i: int| 0 <= i < saved.len() ==> #[trigger] saved[i] > height
            &&& forall|i: int| 0 <= i < published.len() ==> (#[trigger] published[i]).0 > height
        }),
{
    let stored = state.next(EventView::CheckpointSaved).checkpoint;
    let fresh = IndexerState::initial(state.start, state.poll_interval, state.backoff);
    lemma_initial_is_well_formed(state.start, state.poll_interval, state.backoff);
    lemma_next_is_well_formed(fresh, EventView::CheckpointLoaded(stored));
    let restarted = fresh.next(EventView::CheckpointLoaded(stored));
    lemma_heights_stay_above_checkpoint(restarted, events);
}

/// After a success the schedule starts over: the first failure that follows
/// calls for the initial delay, whatever failed before.
pub proof fn lemma_success_resets_the_delay(
    state: IndexerState,
    event: EventView,
    cause: Failure,
)
    requires
        state.wf(),
        state.phase is Working,
        answers(state.phase->Working_0, event),
    ensures
        ({
            let succeeded = state.next(event);
            let failed = succeeded.next(EventView::Failed(cause));
            &&& succeeded.retry == RetryState::fresh()
            &&& succeeded.phase is Working ==> failed.pending() == (ActionView::Backoff {
                delay: state.backoff.initial,
            })
        }),
{
    lemma_schedule(state.backoff, 0);
}

/// From one failure of a stage to the next the wait never shrinks, and it
/// never passes the configured maximum.
pub proof fn lemma_wait_never_shrinks(state: IndexerState, cause: Failure)
    requires
        state.wf(),
        state.phase is Working,
    ensures
        ({
            let failed = state.next(EventView::Failed(cause));
            &&& failed.pending() == (ActionView::Backoff { delay: failed.retry.delay })
            &&& state.retry.delay <= failed.retry.delay <= state.backoff.max
            &&& failed.next(EventView::Woke).retry == failed.retry
        }),
{
    lemma_schedule(state.backoff, state.retry.failures as nat);
    lemma_schedule(state.backoff, state.retry.failures as nat + 1);
    lemma_count_saturates(state.backoff);
}

/// Whether the events of the target are published and its save is still
/// owed.
pub open spec fn save_is_owed(state: IndexerState) -> bool {
    state.phase == Phase::Working(Stage::Checkpointing) || state.phase == Phase::Backoff(
        Stage::Checkpointing,
    )
}

/// A height is saved only after its events were published: in a run that
/// begins with no save owed, the heights saved are, one for one and in
/// order, the heights of the publications, of which at most the last is not
/// saved yet.
pub proof fn lemma_saved_after_published(state: IndexerState, events: Seq<EventView>)
    requires
        state.wf(),
        !save_is_owed(state),
    ensures
        ({
            let saved = saved_heights(state, events);
            let published = published_blocks(state, events);
            let end = state.run(events);
            &&& saved.len() <= published.len() <= saved.len() + 1
            &&& forall|i: int| 0 <= i < saved.len() ==> #[trigger] saved[i] == published[i].0
            &&& save_is_owed(end) ==> published.len() == saved.len() + 1 && end.target == Some(
                published.last().0,
            )
            &&& !save_is_owed(end) && !(end.phase is Stopped) ==> published.len() == saved.len()
        }),
    decreases events.len(),
{
    if events.len() > 0 {
        lemma_saved_after_published(state, events.drop_last());
        lemma_run_is_well_formed(state, events.drop_last());
    }
}

/// A first run begins at the configured height: as long as nothing is saved
/// that height is the only one the loop asks anything for, and it is the
/// first that is saved.
pub proof fn lemma_first_run_starts_at_genesis(
    genesis: u64,
    poll_interval: u64,
    backoff: Backoff,
    events: Seq<EventView>,
)
    requires
        backoff.initial <= backoff.max,
    ensures
        ({
            let found_none = IndexerState::initial(
                Start::Height(genesis),
                poll_interval,
                backoff,
            ).next(EventView::CheckpointLoaded(None));
            let saved = saved_heights(found_none, events);
            let end = found_none.run(events);
            &&& found_none.target == Some(genesis)
            &&& saved.len() == 0 ==> end.target == Some(genesis)
            &&& saved.len() == 0 && action_height(end.pending()) is Some ==> action_height(
                end.pending(),
            ) == Some(genesis)
            &&& forall|i: int| 0 <= i < saved.len() ==> #[trigger] saved[i] == genesis + i
        }),
{
    let fresh = IndexerState::initial(Start::Height(genesis), poll_interval, backoff);
    lemma_initial_is_well_formed(Start::Height(genesis), poll_interval, backoff);
    lemma_next_is_well_formed(fresh, EventView::CheckpointLoaded(None));
    let found_none = fresh.next(EventView::CheckpointLoaded(None));
    lemma_saved_heights_are_contiguous(found_none, events);
    lemma_one_height_in_flight(found_none.run(events));
}

/// A loop that has ended stays ended: no event moves it, and nothing more is
/// saved or published.
pub proof fn lemma_stopped_is_final(state: IndexerState, events: Seq<EventView>)
    requires
        state.phase is Stopped,
    ensures
        state.run(events) == state,
        state.pending() == ActionView::Stop,
        saved_heights(state, events).len() == 0,
        published_blocks(state, events).len() == 0,
    decreases events.len(),
{
    if events.len() > 0 {
        lemma_stopped_is_final(state, events.drop_last());
    }
}

/// Once asked to end, the loop begins nothing new. The request stays in
/// force; a wait that is over, or cut short, ends the loop; and of the
/// heights at most the one in progress is still published and saved, after
/// which the loop has ended.
pub proof fn lemma_shutdown_begins_nothing_new(state: IndexerState, events: Seq<EventView>)
    requires
        state.wf(),
        state.shutdown,
    ensures
        ({
            let end = state.run(events);
            let saved = saved_heights(state, events);
            let published = published_blocks(state, events);
            &&& end.wf()
            &&& end.shutdown
            &&& (end.phase is Backoff || end.phase is CaughtUp) ==> end.next(
                EventView::Woke,
            ).phase is Stopped
            &&& saved.len() <= 1
            &&& published.len() <= 1
            &&& saved.len() == 1 ==> end.phase is Stopped
            &&& published.len() == 1 ==> save_is_owed(end) || end.phase is Stopped
            &&& saved.len() == 1 && state.target is Some ==> saved[0] == state.target.unwrap()
            &&& published.len() == 1 && state.target is Some ==> published[0].0
                == state.target.unwrap()
            &&& saved.len() == 0 && state.target is Some ==> end.target == state.target
        }),
    decreases events.len(),
{
    if events.len() > 0 {
        lemma_shutdown_begins_nothing_new(state, events.drop_last());
        lemma_next_is_well_formed(state.run(events.drop_last()), events.last());
    }
}

} // verus!
