//! The task that generates an elevation field away from the main loop.
//!
//! The host owns a one-shot channel and the worker thread; the task owns the
//! decisions. On each tick the host tries to receive from the channel without
//! blocking, tells the task what came of it, and does what the task answers:
//! start the worker, or take the result. The task asks for a worker once at
//! most, whatever it is told and however often it is polled.
use vstd::prelude::*;

verus! {

/// What a non-blocking receive on the task's channel came to.
pub enum ChannelEvent<T> {
    /// The worker has sent its result.
    Received(T),
    /// Nothing has been sent yet.
    Empty,
    /// Every sender is gone and nothing was sent: the worker failed.
    Disconnected,
}

/// What a poll reports to the scheduler.
pub enum PollOutcome<T> {
    /// Not ready: poll again.
    Pending,
    /// Resolved: with the result, or with nothing where generation failed.
    Ready(Option<T>),
}

/// The answer to one poll.
pub struct PollStep<T> {
    /// What the scheduler is told.
    pub outcome: PollOutcome<T>,
    /// Whether the host is to start the worker now.
    pub spawn: bool,
}

/// What the host does with the outcome of a poll.
pub enum HostAction<T> {
    /// Leave the task registered and poll it again on a later tick.
    KeepPolling,
    /// Bind the result into the material, arm the blend, retire the task.
    Install(T),
    /// Nothing was produced: tell the user, retire the task.
    ReportFailure,
}

/// What a task holds.
pub struct TaskState<G> {
    pub generator: G,
    pub spawned: bool,
}

/// What a poll reports on an event: a result resolves the task, a closed
/// channel resolves it with nothing, an empty channel leaves it pending.
pub open spec fn outcome_of<T>(event: ChannelEvent<T>) -> PollOutcome<T> {
    match event {
        ChannelEvent::Received(result) => PollOutcome::Ready(Some(result)),
        ChannelEvent::Disconnected => PollOutcome::Ready(None),
        ChannelEvent::Empty => PollOutcome::Pending,
    }
}

/// Whether a poll asks for the worker: the channel is empty and no worker
/// was asked for before.
pub open spec fn asks_for_worker<T>(spawned: bool, event: ChannelEvent<T>) -> bool {
    !spawned && event is Empty
}

/// Whether a worker has been asked for once the poll is over.
pub open spec fn spawned_after<T>(spawned: bool, event: ChannelEvent<T>) -> bool {
    spawned || event is Empty
}

/// Whether a worker has been asked for once `events` have been polled in
/// turn.
pub open spec fn spawned_after_all<T>(spawned: bool, events: Seq<ChannelEvent<T>>) -> bool
    decreases events.len(),
{
    if events.len() == 0 {
        spawned
    } else {
        spawned_after(spawned_after_all(spawned, events.drop_last()), events.last())
    }
}

/// The number of polls, among those of `events` in turn, that ask for the
/// worker.
pub open spec fn workers_asked_for<T>(spawned: bool, events: Seq<ChannelEvent<T>>) -> nat
    decreases events.len(),
{
    if events.len() == 0 {
        0
    } else {
        let before = events.drop_last();
        let asked: nat = if asks_for_worker(spawned_after_all(spawned, before), events.last()) {
            1
        } else {
            0
        };
        workers_asked_for(spawned, before) + asked
    }
}

/// What the host does with an outcome.
pub open spec fn action_for<T>(outcome: PollOutcome<T>) -> HostAction<T> {
    match outcome {
        PollOutcome::Pending => HostAction::KeepPolling,
        PollOutcome::Ready(Some(result)) => HostAction::Install(result),
        PollOutcome::Ready(None) => HostAction::ReportFailure,
    }
}

/// One run of generation, polled by the host tick after tick.
pub struct GenerationTask<G> {
    generator: G,
    spawned: bool,
}

impl<G> View for GenerationTask<G> {
    type V = TaskState<G>;

    closed spec fn view(&self) -> TaskState<G> {
        TaskState { generator: self.generator, spawned: self.spawned }
    }
}

impl<G> GenerationTask<G> {
    /// A task that has not asked for its worker yet.
    pub fn new(generator: G) -> (task: Self)
        ensures
            task@.generator == generator,
            !task@.spawned,
    {
        GenerationTask { generator, spawned: false }
    }

    /// What the worker is to generate with.
    pub fn generator(&self) -> (generator: &G)
        ensures
            *generator == self@.generator,
    {
        &self.generator
    }

    /// Whether the worker has been asked for.
    pub fn has_spawned(&self) -> (spawned: bool)
        ensures
            spawned == self@.spawned,
    {
        self.spawned
    }

    /// One poll, on what the channel gave.
    ///
    /// A result that was received resolves the task with it, and a channel
    /// that was closed resolves it with nothing; neither touches the task. On
    /// an empty channel the task stays pending, and asks for the worker if it
    /// had not done so before.
    pub fn poll<T>(&mut self, event: ChannelEvent<T>) -> (step: PollStep<T>)
        ensures
            step.outcome == outcome_of(event),
            step.spawn == asks_for_worker(old(self)@.spawned, event),
            final(self)@.spawned == spawned_after(old(self)@.spawned, event),
            final(self)@.generator == old(self)@.generator,
    {
        match event {
            ChannelEvent::Received(result) => PollStep {
                outcome: PollOutcome::Ready(Some(result)),
                spawn: false,
            },
            ChannelEvent::Disconnected => PollStep { outcome: PollOutcome::Ready(None), spawn: false },
            ChannelEvent::Empty => {
                let spawn: bool = !self.spawned;
                self.spawned = true;
                PollStep { outcome: PollOutcome::Pending, spawn }
            },
        }
    }
}

/// What the host does with the outcome of a poll: it installs a result,
/// reports a failure, and otherwise keeps polling.
pub fn host_action<T>(outcome: PollOutcome<T>) -> (action: HostAction<T>)
    ensures
        action == action_for(outcome),
{
    match outcome {
        PollOutcome::Pending => HostAction::KeepPolling,
        PollOutcome::Ready(Some(result)) => HostAction::Install(result),
        PollOutcome::Ready(None) => HostAction::ReportFailure,
    }
}

/// Once the worker has been asked for, no poll asks for it again, and the
/// guard stays set, whatever the channel gives.
pub proof fn guard_stays_set<T>(event: ChannelEvent<T>)
    ensures
        !asks_for_worker(true, event),
        spawned_after(true, event),
{
}

/// The guard never falls back: over any run of polls, a task that had asked
/// for its worker still has, and one that is polled on an empty channel has
/// asked for it from then on.
pub proof fn guard_is_monotone<T>(spawned: bool, events: Seq<ChannelEvent<T>>)
    ensures
        spawned ==> spawned_after_all(spawned, events),
        spawned_after_all(spawned, events) <==> spawned || exists|k: int|
            0 <= k < events.len() && #[trigger] events[k] is Empty,
    decreases events.len(),
{
    if events.len() > 0 {
        let before = events.drop_last();
        guard_is_monotone(spawned, before);
        if exists|k: int| 0 <= k < before.len() && #[trigger] before[k] is Empty {
            let k = choose|k: int| 0 <= k < before.len() && #[trigger] before[k] is Empty;
            assert(events[k] is Empty);
        }
        if events.last() is Empty {
            assert(events[events.len() - 1] is Empty);
        }
        if exists|k: int| 0 <= k < events.len() && #[trigger] events[k] is Empty {
            let k = choose|k: int| 0 <= k < events.len() && #[trigger] events[k] is Empty;
            if k < before.len() {
                assert(before[k] is Empty);
            }
        }
    }
}

/// At most one worker: over any run of polls, from any state, the task asks
/// for its worker once at most; never if it had asked before the run; and
/// exactly once if it had not and the channel was found empty at some poll.
pub proof fn at_most_one_worker<T>(spawned: bool, events: Seq<ChannelEvent<T>>)
    ensures
        workers_asked_for(spawned, events) <= 1,
        spawned ==> workers_asked_for(spawned, events) == 0,
        !spawned ==> (workers_asked_for(spawned, events) == 1 <==> spawned_after_all(
            spawned,
            events,
        )),
    decreases events.len(),
{
    if events.len() > 0 {
        let before = events.drop_last();
        at_most_one_worker(spawned, before);
        guard_is_monotone(spawned, before);
    }
}

/// No worker after resolution: in a run of polls, once a poll has resolved
/// a task whose worker had been asked for, as it has been wherever a worker
/// can have sent or failed, no later poll asks for a worker, and the guard
/// is still set at the end.
pub proof fn no_worker_after_resolution<T>(
    spawned: bool,
    events: Seq<ChannelEvent<T>>,
    resolved: int,
    later: int,
)
    requires
        0 <= resolved < later < events.len(),
        outcome_of(events[resolved]) is Ready,
        spawned_after_all(spawned, events.take(resolved)),
    ensures
        !asks_for_worker(spawned_after_all(spawned, events.take(later)), events[later]),
        spawned_after_all(spawned, events),
{
    guard_is_monotone(spawned, events.take(resolved));
    guard_is_monotone(spawned, events.take(later));
    guard_is_monotone(spawned, events);
    if !spawned {
        let k = choose|k: int|
            0 <= k < events.take(resolved).len() && #[trigger] events.take(resolved)[k] is Empty;
        assert(events.take(later)[k] is Empty);
        assert(events[k] is Empty);
    }
}

/// A task resolves on the first poll that finds the worker's result, with
/// that result, and the host then installs it.
pub proof fn result_is_installed<T>(result: T)
    ensures
        outcome_of(ChannelEvent::Received(result)) == PollOutcome::Ready(Some(result)),
        action_for(outcome_of(ChannelEvent::Received(result))) == HostAction::Install(result),
        action_for(outcome_of(ChannelEvent::<T>::Disconnected)) == HostAction::<T>::ReportFailure,
        action_for(outcome_of(ChannelEvent::<T>::Empty)) == HostAction::<T>::KeepPolling,
{
}

} // verus!
