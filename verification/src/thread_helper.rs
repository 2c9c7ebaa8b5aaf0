//! Starting a virtio worker thread and what the thread does from its filter to its end.

use crate::bpf::{SeccompAction, SockFilter};
#[allow(unused_imports)]
use crate::clock::MICROS_LIMIT;
#[allow(unused_imports)]
use crate::seccomp_filters::{after_lookup, confines, is_cached};
use crate::seccomp_filters::{
    get_cached_seccomp_filter, Error, FilterCache, FilterLookup, Thread,
};
#[allow(unused_imports)]
use crate::seccomp_rules::Target;
use crate::text::join;
use std::sync::Arc;
use std::time::Instant;
#[allow(unused_imports)]
use vstd::prelude::*;
#[allow(unused_imports)]
use vstd::string::StringExecFns;

verus! {

/// Why a worker thread was not started.
#[derive(Debug)]
pub enum SpawnError<E> {
    /// It has no filter.
    CreateSeccompFilter(Error),
    /// The event descriptor that stops the VMM could not be duplicated.
    CloneEventFd(E),
    /// The system refused another thread.
    ThreadSpawn(E),
}

/// What a worker thread starts with, and how its filter was come by.
pub struct WorkerStart {
    pub program: Arc<Vec<SockFilter>>,
    pub worker_type: &'static str,
    pub seccomp_cache_hit: bool,
    pub seccomp_filter_build_us: u128,
    pub seccomp_filter_lookup_us: u128,
}

impl WorkerStart {
    /// Whether it is what a worker starts with whose program was come by as `lookup` tells.
    pub open spec fn is_start_of(self, lookup: FilterLookup, thread_type: Thread) -> bool {
        &&& self.program@ == lookup.program@
        &&& self.worker_type@ == thread_type.spec_name()
        &&& self.seccomp_cache_hit == lookup.cache_hit
        &&& self.seccomp_filter_build_us == lookup.build_us
        &&& self.seccomp_filter_lookup_us == lookup.lookup_us
    }

    /// Returns what a worker starts with whose program was come by as `lookup` tells.
    pub fn new(lookup: FilterLookup, thread_type: Thread) -> (start: Self)
        ensures
            start.is_start_of(lookup, thread_type),
    {
        WorkerStart {
            program: lookup.program,
            worker_type: thread_type.name(),
            seccomp_cache_hit: lookup.cache_hit,
            seccomp_filter_build_us: lookup.build_us,
            seccomp_filter_lookup_us: lookup.lookup_us,
        }
    }
}

/// What has to be done next to start a worker thread.
#[derive(Debug)]
pub enum SpawnStep<E> {
    /// Look up the thread's filter.
    LookUpFilter,
    /// Duplicate the event descriptor that stops the VMM.
    CloneExitEvent,
    /// Have the system start the thread.
    SpawnThread,
    /// Nothing: the thread is started.
    Finish,
    /// Stop with an error. No thread is started.
    Fail { error: SpawnError<E> },
}

/// What came of a step.
#[derive(Debug)]
pub enum SpawnEvent<E> {
    /// The step is done.
    Done,
    /// There is no filter.
    NoFilter(Error),
    /// The system refused what was asked of it.
    Refused(E),
}

impl<E> SpawnStep<E> {
    /// Whether `event` can come of the step.
    pub open spec fn accepts(self, event: SpawnEvent<E>) -> bool {
        match self {
            SpawnStep::LookUpFilter => event is Done || event is NoFilter,
            SpawnStep::CloneExitEvent => event is Done || event is Refused,
            SpawnStep::SpawnThread => event is Done || event is Refused,
            _ => false,
        }
    }

    /// The step after `event` came of this one. An event that cannot come of it changes nothing.
    pub open spec fn after(self, event: SpawnEvent<E>) -> Self {
        match (self, event) {
            (SpawnStep::LookUpFilter, SpawnEvent::Done) => SpawnStep::CloneExitEvent,
            (SpawnStep::LookUpFilter, SpawnEvent::NoFilter(error)) => SpawnStep::Fail {
                error: SpawnError::CreateSeccompFilter(error),
            },
            (SpawnStep::CloneExitEvent, SpawnEvent::Done) => SpawnStep::SpawnThread,
            (SpawnStep::CloneExitEvent, SpawnEvent::Refused(error)) => SpawnStep::Fail {
                error: SpawnError::CloneEventFd(error),
            },
            (SpawnStep::SpawnThread, SpawnEvent::Done) => SpawnStep::Finish,
            (SpawnStep::SpawnThread, SpawnEvent::Refused(error)) => SpawnStep::Fail {
                error: SpawnError::ThreadSpawn(error),
            },
            _ => self,
        }
    }

    /// Returns the step after `event` came of this one.
    pub fn next(self, event: SpawnEvent<E>) -> (step: Self)
        ensures
            step == self.after(event),
    {
        match (self, event) {
            (SpawnStep::LookUpFilter, SpawnEvent::Done) => SpawnStep::CloneExitEvent,
            (SpawnStep::LookUpFilter, SpawnEvent::NoFilter(error)) => SpawnStep::Fail {
                error: SpawnError::CreateSeccompFilter(error),
            },
            (SpawnStep::CloneExitEvent, SpawnEvent::Done) => SpawnStep::SpawnThread,
            (SpawnStep::CloneExitEvent, SpawnEvent::Refused(error)) => SpawnStep::Fail {
                error: SpawnError::CloneEventFd(error),
            },
            (SpawnStep::SpawnThread, SpawnEvent::Done) => SpawnStep::Finish,
            (SpawnStep::SpawnThread, SpawnEvent::Refused(error)) => SpawnStep::Fail {
                error: SpawnError::ThreadSpawn(error),
            },
            (step, _) => step,
        }
    }
}

/// Returns what a worker thread starts with, if it has a filter, and the step after the lookup of
/// that filter.
pub fn filter_looked_up<E>(result: Result<FilterLookup, Error>, thread_type: Thread) -> (next: (
    Option<WorkerStart>,
    SpawnStep<E>,
))
    ensures
        match result {
            Ok(lookup) => {
                &&& next.0 is Some
                &&& next.0->0.is_start_of(lookup, thread_type)
                &&& next.1 == SpawnStep::<E>::LookUpFilter.after(SpawnEvent::Done)
            },
            Err(error) => {
                &&& next.0 is None
                &&& next.1 == SpawnStep::<E>::LookUpFilter.after(SpawnEvent::NoFilter(error))
            },
        },
{
    match result {
        Ok(lookup) => (
            Some(WorkerStart::new(lookup, thread_type)),
            SpawnStep::LookUpFilter.next(SpawnEvent::Done),
        ),
        Err(error) => (None, SpawnStep::LookUpFilter.next(SpawnEvent::NoFilter(error))),
    }
}

/// Takes the first step to start a worker thread, the lookup of its filter, and returns what the
/// thread starts with and the step that follows. The lookup counts from `lookup_started`, which
/// lies before the wait for the cache.
pub fn spawn_virtio_thread<E>(
    cache: &mut FilterCache,
    seccomp_action: &SeccompAction,
    thread_type: Thread,
    lookup_started: Instant,
) -> (next: (Option<WorkerStart>, SpawnStep<E>))
    requires
        old(cache).wf(),
    ensures
        next.0 is Some,
        next.1 == SpawnStep::<E>::LookUpFilter.after(SpawnEvent::Done),
        confines(
            next.0->0.program@,
            *seccomp_action,
            thread_type,
            old(cache).spec_target(),
        ),
        next.0->0.program@.len() == 0 <==> *seccomp_action == SeccompAction::Allow,
        next.0->0.worker_type@ == thread_type.spec_name(),
        next.0->0.seccomp_cache_hit == is_cached(old(cache)@, (*seccomp_action, thread_type)),
        next.0->0.seccomp_cache_hit ==> {
            &&& next.0->0.seccomp_filter_build_us == 0
            &&& *final(cache) == *old(cache)
        },
        next.0->0.seccomp_filter_build_us <= next.0->0.seccomp_filter_lookup_us < MICROS_LIMIT,
        final(cache).wf(),
        final(cache).spec_target() == old(cache).spec_target(),
        final(cache)@ == after_lookup(
            old(cache)@,
            (*seccomp_action, thread_type),
            old(cache).spec_target(),
        ),
{
    let result = get_cached_seccomp_filter(cache, seccomp_action, thread_type, lookup_started);
    filter_looked_up(result, thread_type)
}

/// What asking the system for something came to.
pub open spec fn event_of<T, E>(result: Result<T, E>) -> SpawnEvent<E> {
    match result {
        Ok(_) => SpawnEvent::Done,
        Err(error) => SpawnEvent::Refused(error),
    }
}

/// Returns the duplicate of the event descriptor that stops the VMM, if there is one, and the step
/// after the attempt to make it.
pub fn exit_event_cloned<T, E>(result: Result<T, E>) -> (next: (Option<T>, SpawnStep<E>))
    ensures
        next.0 == (match result {
            Ok(event) => Some(event),
            Err(_) => None,
        }),
        next.1 == SpawnStep::<E>::CloneExitEvent.after(event_of(result)),
{
    match result {
        Ok(event) => (Some(event), SpawnStep::CloneExitEvent.next(SpawnEvent::Done)),
        Err(error) => (None, SpawnStep::CloneExitEvent.next(SpawnEvent::Refused(error))),
    }
}

/// Adds a thread to those of its device, if it was started, and returns the step after the
/// attempt to start it.
pub fn thread_spawned<T, E>(result: Result<T, E>, epoll_threads: &mut Vec<T>) -> (step: SpawnStep<
    E,
>)
    ensures
        final(epoll_threads)@ == (match result {
            Ok(thread) => old(epoll_threads)@.push(thread),
            Err(_) => old(epoll_threads)@,
        }),
        step == SpawnStep::<E>::SpawnThread.after(event_of(result)),
{
    match result {
        Ok(thread) => {
            epoll_threads.push(thread);
            SpawnStep::SpawnThread.next(SpawnEvent::Done)
        },
        Err(error) => SpawnStep::SpawnThread.next(SpawnEvent::Refused(error)),
    }
}

/// The step after the given events, from the first step on.
pub open spec fn spawn_after<E>(events: Seq<SpawnEvent<E>>) -> SpawnStep<E>
    decreases events.len(),
{
    if events.len() == 0 {
        SpawnStep::LookUpFilter
    } else {
        spawn_after(events.drop_last()).after(events.last())
    }
}

/// Whether each event can come of the step that is next when it comes.
pub open spec fn is_spawn<E>(events: Seq<SpawnEvent<E>>) -> bool
    decreases events.len(),
{
    events.len() == 0 || (is_spawn(events.drop_last()) && spawn_after(events.drop_last()).accepts(
        events.last(),
    ))
}

/// A thread's filter is looked up first, the event that stops the VMM is duplicated next, and the
/// thread is started last, each only if all before went well. So starting a thread ends well
/// exactly if all three do, and with the error of the lookup, of the duplicate or of the system
/// exactly if that step is the first to fail.
pub proof fn law_threads_are_started_in_order<E>(events: Seq<SpawnEvent<E>>)
    requires
        is_spawn(events),
    ensures
        match spawn_after(events) {
            SpawnStep::LookUpFilter => events.len() == 0,
            SpawnStep::CloneExitEvent => events == seq![SpawnEvent::<E>::Done],
            SpawnStep::SpawnThread => events == seq![SpawnEvent::<E>::Done, SpawnEvent::Done],
            SpawnStep::Finish => events == seq![
                SpawnEvent::<E>::Done,
                SpawnEvent::Done,
                SpawnEvent::Done,
            ],
            SpawnStep::Fail { error: SpawnError::CreateSeccompFilter(error) } => events == seq![
                SpawnEvent::<E>::NoFilter(error),
            ],
            SpawnStep::Fail { error: SpawnError::CloneEventFd(error) } => events == seq![
                SpawnEvent::Done,
                SpawnEvent::Refused(error),
            ],
            SpawnStep::Fail { error: SpawnError::ThreadSpawn(error) } => events == seq![
                SpawnEvent::Done,
                SpawnEvent::Done,
                SpawnEvent::Refused(error),
            ],
        },
    decreases events.len(),
{
    if events.len() > 0 {
        law_threads_are_started_in_order(events.drop_last());
        assert(events =~= events.drop_last().push(events.last()));
    }
}

/// The first step that fails ends the start of a thread with its own error, whatever comes later.
pub proof fn law_thread_start_stops_at_the_first_failure<E>(
    events: Seq<SpawnEvent<E>>,
    failed: int,
)
    requires
        0 <= failed < events.len(),
        failed < 3,
        forall|j: int| 0 <= j < failed ==> #[trigger] events[j] is Done,
        if failed == 0 {
            events[failed] is NoFilter
        } else {
            events[failed] is Refused
        },
    ensures
        spawn_after(events) == (SpawnStep::Fail {
            error: if failed == 0 {
                SpawnError::CreateSeccompFilter(events[failed]->NoFilter_0)
            } else if failed == 1 {
                SpawnError::CloneEventFd(events[failed]->Refused_0)
            } else {
                SpawnError::ThreadSpawn(events[failed]->Refused_0)
            },
        }),
    decreases events.len(),
{
    let before = events.drop_last();
    if failed < before.len() {
        law_thread_start_stops_at_the_first_failure(before, failed);
    } else {
        reveal_with_fuel(spawn_after, 4);
        assert(forall|j: int| 0 <= j < before.len() ==> #[trigger] before[j] == events[j]);
    }
}

/// Where nothing fails, the filter is looked up, then the event that stops the VMM is duplicated,
/// then the thread is started, and then nothing is left to do.
pub proof fn law_thread_start_goes_through<E>(events: Seq<SpawnEvent<E>>)
    requires
        forall|j: int| 0 <= j < events.len() ==> #[trigger] events[j] is Done,
    ensures
        events.len() == 0 ==> spawn_after(events) is LookUpFilter,
        events.len() == 1 ==> spawn_after(events) is CloneExitEvent,
        events.len() == 2 ==> spawn_after(events) is SpawnThread,
        events.len() >= 3 ==> spawn_after(events) is Finish,
    decreases events.len(),
{
    if events.len() > 0 {
        law_thread_start_goes_through(events.drop_last());
        assert(events[events.len() - 1] is Done);
    }
}

/// What was asked of the system is done exactly if it was granted, and else refused for the
/// system's own reason.
pub proof fn law_results_tell_what_came_of_a_step<T, E>(result: Result<T, E>)
    ensures
        result is Ok <==> event_of(result) is Done,
        result is Err <==> event_of(result) is Refused,
        result is Err ==> event_of(result)->Refused_0 == result->Err_0,
{
}

/// A thread starts with the program that was looked up, under its worker's name and with the
/// lookup's own times.
pub proof fn law_threads_start_as_looked_up(
    start: WorkerStart,
    lookup: FilterLookup,
    thread_type: Thread,
)
    ensures
        start.is_start_of(lookup, thread_type) <==> {
            &&& start.program@ == lookup.program@
            &&& start.worker_type@ == thread_type.spec_name()
            &&& start.seccomp_cache_hit == lookup.cache_hit
            &&& start.seccomp_filter_build_us == lookup.build_us
            &&& start.seccomp_filter_lookup_us == lookup.lookup_us
        },
{
}

/// What a worker thread has to do next.
#[derive(Clone, Copy, Debug, PartialEq, Eq, Structural)]
pub enum WorkerStep {
    /// Have the kernel confine the thread with its filter.
    ApplyFilter,
    /// Do the worker's own job.
    Run,
    /// Have the VMM stop.
    SignalExit,
    /// Mark the device as one that needs a reset.
    MarkNeedsReset,
    /// End.
    Exit,
}

/// What came of a worker thread's step.
#[derive(Clone, Copy, Debug, PartialEq, Eq, Structural)]
pub enum WorkerEvent {
    /// The step is done, and was no failure.
    Done,
    /// The step failed.
    Failed,
    /// The worker's own job panicked.
    Panicked,
}

impl WorkerStep {
    /// The first step of a thread with the given program.
    pub open spec fn spec_first(program: Seq<SockFilter>) -> Self {
        if program.len() == 0 {
            WorkerStep::Run
        } else {
            WorkerStep::ApplyFilter
        }
    }

    /// The step after `event` came of this one.
    pub open spec fn spec_next(self, event: WorkerEvent) -> Self {
        match self {
            WorkerStep::ApplyFilter => if event == WorkerEvent::Done {
                WorkerStep::Run
            } else {
                WorkerStep::SignalExit
            },
            WorkerStep::Run => match event {
                WorkerEvent::Done => WorkerStep::Exit,
                WorkerEvent::Failed => WorkerStep::MarkNeedsReset,
                WorkerEvent::Panicked => WorkerStep::SignalExit,
            },
            _ => WorkerStep::Exit,
        }
    }

    /// Returns the first step of a thread with the given program.
    pub fn first(program: &Vec<SockFilter>) -> (step: Self)
        ensures
            step == WorkerStep::spec_first(program@),
    {
        if program.len() == 0 {
            WorkerStep::Run
        } else {
            WorkerStep::ApplyFilter
        }
    }

    /// Returns the step after `event` came of this one.
    pub fn next(self, event: WorkerEvent) -> (step: Self)
        ensures
            step == self.spec_next(event),
    {
        match self {
            WorkerStep::ApplyFilter => {
                if event == WorkerEvent::Done {
                    WorkerStep::Run
                } else {
                    WorkerStep::SignalExit
                }
            },
            WorkerStep::Run => match event {
                WorkerEvent::Done => WorkerStep::Exit,
                WorkerEvent::Failed => WorkerStep::MarkNeedsReset,
                WorkerEvent::Panicked => WorkerStep::SignalExit,
            },
            _ => WorkerStep::Exit,
        }
    }
}

/// Returns why a device needs a reset, given its worker's name and error.
pub fn needs_reset_reason(thread_name: &str, error: &str) -> (reason: String)
    ensures
        reason@ == thread_name@ + ": worker exited with error: "@ + error@,
{
    let mut reason = join(thread_name, ": worker exited with error: ");
    reason.append(error);
    reason
}

/// The step of a thread with the given program after the given events.
pub open spec fn step_after(program: Seq<SockFilter>, events: Seq<WorkerEvent>) -> WorkerStep
    decreases events.len(),
{
    if events.len() == 0 {
        WorkerStep::spec_first(program)
    } else {
        step_after(program, events.drop_last()).spec_next(events.last())
    }
}

/// A worker does its job only once its filter has been applied, unless it has none.
pub proof fn law_workers_run_confined(program: Seq<SockFilter>, events: Seq<WorkerEvent>)
    requires
        step_after(program, events) is Run,
    ensures
        if program.len() == 0 {
            events.len() == 0
        } else {
            events =~= seq![WorkerEvent::Done]
        },
    decreases events.len(),
{
    if events.len() > 0 {
        let before = events.drop_last();
        assert(step_after(program, before) is ApplyFilter);
        if before.len() > 0 {
            lemma_filter_comes_first(program, before);
        }
    }
}

proof fn lemma_filter_comes_first(program: Seq<SockFilter>, events: Seq<WorkerEvent>)
    requires
        step_after(program, events) is ApplyFilter,
    ensures
        events.len() == 0,
        program.len() > 0,
{
}

/// A worker's thread starts by having itself confined, unless every call is let through.
pub proof fn law_workers_start_with_their_filter(
    program: Seq<SockFilter>,
    action: SeccompAction,
    thread: Thread,
    target: Target,
)
    requires
        confines(program, action, thread, target),
    ensures
        WorkerStep::spec_first(program) is ApplyFilter <==> action != SeccompAction::Allow,
{
}

/// A thread first has itself confined exactly if it has a filter, and else does its job.
pub proof fn law_first_step_is_the_filter(program: Seq<SockFilter>)
    ensures
        program.len() > 0 ==> WorkerStep::spec_first(program) is ApplyFilter,
        program.len() == 0 ==> WorkerStep::spec_first(program) is Run,
        step_after(program, Seq::<WorkerEvent>::empty()) == WorkerStep::spec_first(program),
{
}

/// A thread whose filter is refused, or whose job panics, has the VMM stop; one whose job fails
/// marks its device; and after that, or when its job is done, it ends.
pub proof fn law_threads_end_as_they_should(event: WorkerEvent)
    ensures
        WorkerStep::ApplyFilter.spec_next(event) is Run <==> event is Done,
        WorkerStep::ApplyFilter.spec_next(event) is SignalExit <==> !(event is Done),
        WorkerStep::Run.spec_next(event) is Exit <==> event is Done,
        WorkerStep::Run.spec_next(event) is MarkNeedsReset <==> event is Failed,
        WorkerStep::Run.spec_next(event) is SignalExit <==> event is Panicked,
        WorkerStep::SignalExit.spec_next(event) is Exit,
        WorkerStep::MarkNeedsReset.spec_next(event) is Exit,
        WorkerStep::Exit.spec_next(event) is Exit,
{
}

/// A thread takes its events one after the other.
pub proof fn law_threads_take_events_in_order(
    program: Seq<SockFilter>,
    events: Seq<WorkerEvent>,
    event: WorkerEvent,
)
    ensures
        step_after(program, events.push(event)) == step_after(program, events).spec_next(event),
{
    assert(events.push(event).drop_last() =~= events);
}

} // verus!
