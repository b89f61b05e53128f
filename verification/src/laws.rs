//! What holds of the change flag and of consults, proved over the
//! sequential model in `crate::state`. The flag's operations are
//! sequentially consistent, so every interleaving of marks from any
//! number of threads is one such sequence.

use crate::outcome::{outcome_of, WatchResult};
use crate::state::{consume, debounce_elapsed, mark, marked, WatchState};
use vstd::prelude::*;

verus! {

/// Marks coalesce: after any number of marks, at least one, whatever the
/// flag held before, the next consume returns `true` and clears the flag,
/// and a further consume with no mark in between returns `false`.
pub proof fn lemma_marks_coalesce(pending: bool, n: nat)
    requires
        n >= 1,
    ensures
        marked(pending, n),
        consume(marked(pending, n)) == (true, false),
        consume(consume(marked(pending, n)).1) == (false, false),
{
}

/// A mark is never lost: once set, the flag stays set through any number
/// of further marks.
pub proof fn lemma_mark_is_sticky(n: nat)
    ensures
        marked(true, n),
    decreases n,
{
    if n > 0 {
        lemma_mark_is_sticky((n - 1) as nat);
    }
}

/// A failed rebuild attempt leaves the held graph, the location and the
/// configuration as they were, is reported with the builder's message,
/// and still resets the debounce clock.
pub proof fn lemma_failed_reload_keeps_graph<G>(state: WatchState<G>, message: String, now: u64)
    ensures
        state.force_reload(Err(message), now).graph == state.graph,
        state.force_reload(Err(message), now).path == state.path,
        state.force_reload(Err(message), now).config == state.config,
        state.force_reload(Err(message), now).changed == state.changed,
        state.force_reload(Err(message), now).last_reload == now,
        outcome_of::<G>(Err(message)) == WatchResult::Failed(message),
{
}

/// A successful rebuild attempt installs the new graph and resets the
/// debounce clock.
pub proof fn lemma_successful_reload_installs<G>(state: WatchState<G>, graph: G, now: u64)
    ensures
        state.force_reload(Ok(graph), now).graph == graph,
        state.force_reload(Ok(graph), now).path == state.path,
        state.force_reload(Ok(graph), now).config == state.config,
        state.force_reload(Ok(graph), now).changed == state.changed,
        state.force_reload(Ok(graph), now).last_reload == now,
        outcome_of(Ok::<G, String>(graph)) == WatchResult::Rebuilt,
{
}

/// Two consults within the debounce interval, with a mark in between,
/// both report `NoChange`, leave the watcher as it was, and do not
/// consume the flag: the mark is still pending afterwards.
pub proof fn lemma_poll_within_debounce<G>(
    state: WatchState<G>,
    pending: bool,
    first: u64,
    first_built: Result<G, String>,
    first_finished: u64,
    second: u64,
    second_built: Result<G, String>,
    second_finished: u64,
)
    requires
        !debounce_elapsed(state.last_reload, first),
        !debounce_elapsed(state.last_reload, second),
    ensures
        ({
            let one = state.poll(pending, first, first_built, first_finished);
            let two = one.state.poll(mark(one.pending), second, second_built, second_finished);
            &&& one.outcome == WatchResult::NoChange
            &&& one.state == state
            &&& one.pending == pending
            &&& two.outcome == WatchResult::NoChange
            &&& two.state == state
            &&& two.pending
        }),
{
}

/// Once the debounce interval has elapsed after a mark, the next consult
/// with a builder that succeeds reports `Rebuilt`, installs the new
/// graph, consumes the flag and resets the debounce clock; a consult that
/// follows within the interval reports `NoChange` and changes nothing,
/// whatever the flag holds by then.
pub proof fn lemma_poll_after_debounce<G>(
    state: WatchState<G>,
    pending: bool,
    now: u64,
    graph: G,
    finished: u64,
    later_pending: bool,
    later: u64,
    later_built: Result<G, String>,
    later_finished: u64,
)
    requires
        debounce_elapsed(state.last_reload, now),
        !debounce_elapsed(finished, later),
    ensures
        ({
            let one = state.poll(mark(pending), now, Ok(graph), finished);
            let two = one.state.poll(later_pending, later, later_built, later_finished);
            &&& one.outcome == WatchResult::Rebuilt
            &&& one.state.graph == graph
            &&& one.state.last_reload == finished
            &&& !one.pending
            &&& two.outcome == WatchResult::NoChange
            &&& two.state == one.state
            &&& two.pending == later_pending
        }),
{
}

/// A consult whose builder fails, the debounce interval elapsed and a
/// change pending, reports the builder's message and keeps the graph.
pub proof fn lemma_poll_failed_keeps_graph<G>(
    state: WatchState<G>,
    now: u64,
    message: String,
    finished: u64,
)
    requires
        debounce_elapsed(state.last_reload, now),
    ensures
        ({
            let one = state.poll(true, now, Err(message), finished);
            &&& one.outcome == WatchResult::Failed(message)
            &&& one.state.graph == state.graph
            &&& one.state.last_reload == finished
            &&& !one.pending
        }),
{
}

/// Automatic rebuilds are at least the debounce interval apart: after a
/// consult that attempted one, whether it succeeded or failed, a consult
/// within the interval of the attempt's end reports `NoChange`, changes
/// nothing and leaves the flag as it is.
pub proof fn lemma_attempts_are_debounced<G>(
    state: WatchState<G>,
    pending: bool,
    now: u64,
    built: Result<G, String>,
    finished: u64,
    later_pending: bool,
    later: u64,
    later_built: Result<G, String>,
    later_finished: u64,
)
    requires
        state.rebuilds(pending, now),
        !debounce_elapsed(finished, later),
    ensures
        ({
            let one = state.poll(pending, now, built, finished);
            let two = one.state.poll(later_pending, later, later_built, later_finished);
            &&& one.state == state.force_reload(built, finished)
            &&& one.outcome == outcome_of(built)
            &&& two.outcome == WatchResult::NoChange
            &&& two.state == one.state
            &&& two.pending == later_pending
        }),
{
}

/// A consult is a decision followed, where the decision is to rebuild, by
/// a forced reload: it attempts a rebuild exactly when the debounce
/// interval has elapsed and a change is pending, and otherwise reports
/// `NoChange` and leaves the watcher as it was.
pub proof fn lemma_poll_rebuilds_only_when_due<G>(
    state: WatchState<G>,
    pending: bool,
    now: u64,
    built: Result<G, String>,
    finished: u64,
)
    ensures
        state.rebuilds(pending, now) <==> debounce_elapsed(state.last_reload, now) && pending,
        state.rebuilds(pending, now) ==> {
            &&& state.poll(pending, now, built, finished).state == state.force_reload(
                built,
                finished,
            )
            &&& state.poll(pending, now, built, finished).outcome == outcome_of(built)
            &&& !state.poll(pending, now, built, finished).pending
        },
        !state.rebuilds(pending, now) ==> {
            &&& state.poll(pending, now, built, finished).state == state
            &&& state.poll(pending, now, built, finished).outcome == WatchResult::NoChange
        },
        !debounce_elapsed(state.last_reload, now) ==> state.poll(
            pending,
            now,
            built,
            finished,
        ).pending == pending,
{
}

} // verus!
