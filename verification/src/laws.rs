//! What holds across calls: facts about handles and launches that follow
//! from the contracts of the single operations.

use crate::failure::{Failure, Stream};
use crate::launch::{descriptor_in, next_phase, LaunchEvent, LaunchState, Phase};
use crate::opts::Method;
use crate::process::{
    process_lent, stderr_lent, stdin_lent, stdout_lent, stream_failure, ProcessEntry,
};
use crate::registry::inserted;
use crate::session::resolved;
use crate::timed::{settled, Raced};
use vstd::prelude::*;

verus! {

/// Two registrations in a row yield two distinct handles, and afterwards
/// each handle is registered and names the object it was given for.
pub proof fn lemma_two_registrations_distinct<T>(
    start: Map<usize, T>,
    ids_start: Option<(u64, u64)>,
    first: T,
    between: Map<usize, T>,
    ids_between: Option<(u64, u64)>,
    first_handle: usize,
    second: T,
    end: Map<usize, T>,
    ids_end: Option<(u64, u64)>,
    second_handle: usize,
)
    requires
        inserted(start, ids_start, first, between, ids_between, Ok(first_handle)),
        inserted(between, ids_between, second, end, ids_end, Ok(second_handle)),
    ensures
        first_handle != second_handle,
        end.contains_key(first_handle),
        end.contains_key(second_handle),
        end[first_handle] == first,
        end[second_handle] == second,
{
}

/// A handle is registered right after the registration that returned it,
/// names the registered object, and is no longer registered right after
/// its removal. Registering changes no other handle.
pub proof fn lemma_active_until_removed<T>(
    before: Map<usize, T>,
    ids_before: Option<(u64, u64)>,
    object: T,
    after: Map<usize, T>,
    ids_after: Option<(u64, u64)>,
    handle: usize,
)
    requires
        inserted(before, ids_before, object, after, ids_after, Ok(handle)),
    ensures
        !before.contains_key(handle),
        after.contains_key(handle),
        after[handle] == object,
        !after.remove(handle).contains_key(handle),
        forall|other: usize|
            other != handle ==> after.contains_key(other) == before.contains_key(other),
        forall|other: usize| before.contains_key(other) ==> after[other] == before[other],
{
}

/// Each successful registration adds exactly one entry.
pub proof fn lemma_registration_adds_one<T>(
    before: Map<usize, T>,
    ids_before: Option<(u64, u64)>,
    object: T,
    after: Map<usize, T>,
    ids_after: Option<(u64, u64)>,
    handle: usize,
)
    requires
        before.dom().finite(),
        inserted(before, ids_before, object, after, ids_after, Ok(handle)),
    ensures
        after.dom().finite(),
        after.len() == before.len() + 1,
{
}

/// A registration that fails leaves the registry as it was.
pub proof fn lemma_failed_registration_changes_nothing<T>(
    before: Map<usize, T>,
    ids_before: Option<(u64, u64)>,
    object: T,
    after: Map<usize, T>,
    ids_after: Option<(u64, u64)>,
    failure: Failure,
)
    requires
        inserted(before, ids_before, object, after, ids_after, Err(failure)),
    ensures
        after == before,
        ids_before is None,
        ids_after is None,
{
}

/// Resolving a session that was never registered, or has been removed,
/// gives `NotConnected`; removing one session leaves every other session
/// resolving to what it resolved to before.
pub proof fn lemma_absent_session_not_connected<S>(sessions: Map<usize, S>, id: usize, other: usize)
    requires
        other != id,
    ensures
        !sessions.contains_key(id) ==> resolved(sessions, id) == Err::<S, Failure>(
            Failure::NotConnected { id },
        ),
        resolved(sessions.remove(id), id) == Err::<S, Failure>(Failure::NotConnected { id }),
        resolved(Map::<usize, S>::empty(), id) == Err::<S, Failure>(Failure::NotConnected { id }),
        resolved(sessions.remove(id), other) == resolved(sessions, other),
{
}

/// Access to a stream of a process that was never registered, or has been
/// removed, fails with `NotFound`, whichever stream is asked for.
pub proof fn lemma_absent_process_not_found<P, I, O, E>(
    processes: Map<usize, ProcessEntry<P, I, O, E>>,
    id: usize,
    stream: Stream,
)
    ensures
        !processes.contains_key(id) ==> stream_failure(processes, id, stream) == Some(
            Failure::NotFound { id },
        ),
        stream_failure(processes.remove(id), id, stream) == Some(Failure::NotFound { id }),
        stream_failure(Map::<usize, ProcessEntry<P, I, O, E>>::empty(), id, stream) == Some(
            Failure::NotFound { id },
        ),
{
}

/// Lending out a stream of one process, or the process itself, changes no
/// other process: every other handle is registered as before and names
/// what it named before, and the process stays registered.
pub proof fn lemma_processes_independent<P, I, O, E>(
    before: Map<usize, ProcessEntry<P, I, O, E>>,
    id: usize,
    after: Map<usize, ProcessEntry<P, I, O, E>>,
    other: usize,
)
    requires
        other != id,
        ({
            ||| exists|lent: I, returned: I| stdin_lent(before, id, lent, returned, after)
            ||| exists|lent: O, returned: O| stdout_lent(before, id, lent, returned, after)
            ||| exists|lent: E, returned: E| stderr_lent(before, id, lent, returned, after)
            ||| exists|lent: P, returned: P| process_lent(before, id, lent, returned, after)
        }),
    ensures
        after.contains_key(other) == before.contains_key(other),
        before.contains_key(other) ==> after[other] == before[other],
        before.contains_key(id),
        after.contains_key(id),
{
}

/// Lending out standard input leaves the process itself and its two other
/// streams as they were.
pub proof fn lemma_stdin_leaves_the_rest<P, I, O, E>(
    before: Map<usize, ProcessEntry<P, I, O, E>>,
    id: usize,
    lent: I,
    returned: I,
    after: Map<usize, ProcessEntry<P, I, O, E>>,
)
    requires
        stdin_lent(before, id, lent, returned, after),
    ensures
        after[id].stdin == Some(returned),
        after[id].process == before[id].process,
        after[id].stdout == before[id].stdout,
        after[id].stderr == before[id].stderr,
{
}

/// A call that completed is settled with the operation's own outcome,
/// whatever the time limit; only a call whose timer fired first times out.
pub proof fn lemma_timeout_only_when_expired<R>(timeout: u64, raced: Raced<R>)
    ensures
        raced matches Raced::Completed(outcome) ==> settled(timeout, raced) == Ok::<R, Failure>(
            outcome,
        ),
        raced is Expired ==> settled(timeout, raced) == Err::<R, Failure>(
            Failure::Timeout { millis: timeout },
        ),
        settled(timeout, raced) is Err <==> raced is Expired,
{
}

/// The phase a launch is in after it has taken in `events`, one after
/// another, starting from `state`.
pub open spec fn phase_after(state: LaunchState, events: Seq<LaunchEvent>) -> Phase
    decreases events.len(),
{
    if events.len() == 0 {
        state.phase
    } else {
        next_phase(
            LaunchState { phase: phase_after(state, events.drop_last()), ..state },
            events.last(),
        )
    }
}

/// A launch that has failed stays failed, with the same failure, whatever
/// it is told afterwards.
pub proof fn lemma_failure_is_final(state: LaunchState, events: Seq<LaunchEvent>)
    requires
        state.phase is Failed,
    ensures
        phase_after(state, events) == state.phase,
    decreases events.len(),
{
    if events.len() > 0 {
        lemma_failure_is_final(state, events.drop_last());
    }
}

/// A launch becomes ready only by way of a successful authentication: if
/// it is ready after `events`, one of them reported `Authenticated`.
pub proof fn lemma_ready_was_authenticated(state: LaunchState, events: Seq<LaunchEvent>)
    requires
        state.phase is Connecting,
        phase_after(state, events) is Ready,
    ensures
        exists|i: int| 0 <= i < events.len() && events[i] is Authenticated,
    decreases events.len(),
{
    lemma_phase_history(state, events);
}

/// With the `Distant` method a launch becomes ready only after an agent
/// that exited cleanly printed a session descriptor and the direct
/// connection to it was opened.
pub proof fn lemma_distant_ready_had_descriptor(state: LaunchState, events: Seq<LaunchEvent>)
    requires
        state.phase is Connecting,
        state.method == Method::Distant,
        phase_after(state, events) is Ready,
    ensures
        exists|i: int| 0 <= i < events.len() && agent_handed_over(events[i]),
        exists|i: int| 0 <= i < events.len() && events[i] is Reconnected,
    decreases events.len(),
{
    lemma_phase_history(state, events);
}

/// Whether `event` reports an agent that exited cleanly and printed a
/// session descriptor.
pub open spec fn agent_handed_over(event: LaunchEvent) -> bool {
    event matches LaunchEvent::AgentExited { success, output, .. } && success && descriptor_in(
        output@,
    ) is Some
}

/// What the phase reached says of the events taken in since `Connecting`.
proof fn lemma_phase_history(state: LaunchState, events: Seq<LaunchEvent>)
    requires
        state.phase is Connecting,
    ensures
        match phase_after(state, events) {
            Phase::Connecting | Phase::Authenticating | Phase::Failed(_) => true,
            Phase::AwaitingAgent => {
                &&& state.method == Method::Distant
                &&& exists|i: int| 0 <= i < events.len() && events[i] is Authenticated
            },
            Phase::Reconnecting => {
                &&& state.method == Method::Distant
                &&& exists|i: int| 0 <= i < events.len() && events[i] is Authenticated
                &&& exists|i: int| 0 <= i < events.len() && agent_handed_over(events[i])
            },
            Phase::Ready => {
                &&& exists|i: int| 0 <= i < events.len() && events[i] is Authenticated
                &&& state.method == Method::Distant ==> {
                    &&& exists|i: int| 0 <= i < events.len() && agent_handed_over(events[i])
                    &&& exists|i: int| 0 <= i < events.len() && events[i] is Reconnected
                }
            },
        },
    decreases events.len(),
{
    if events.len() > 0 {
        let earlier = events.drop_last();
        let last = events.len() - 1;
        lemma_phase_history(state, earlier);
        assert forall|i: int| 0 <= i < earlier.len() implies earlier[i] == events[i] by {}
        let before = phase_after(state, earlier);
        let now = phase_after(state, events);
        if exists|i: int| 0 <= i < earlier.len() && earlier[i] is Authenticated {
            let i = choose|i: int| 0 <= i < earlier.len() && earlier[i] is Authenticated;
            assert(events[i] is Authenticated);
        }
        if exists|i: int| 0 <= i < earlier.len() && agent_handed_over(earlier[i]) {
            let i = choose|i: int| 0 <= i < earlier.len() && agent_handed_over(earlier[i]);
            assert(agent_handed_over(events[i]));
        }
        if exists|i: int| 0 <= i < earlier.len() && earlier[i] is Reconnected {
            let i = choose|i: int| 0 <= i < earlier.len() && earlier[i] is Reconnected;
            assert(events[i] is Reconnected);
        }
        if before is Authenticating && now !is Failed {
            assert(events[last] is Authenticated);
        }
        if before is AwaitingAgent && now is Reconnecting {
            assert(agent_handed_over(events[last]));
        }
        if before is Reconnecting && now is Ready {
            assert(events[last] is Reconnected);
        }
    }
}

} // verus!
