use crate::flag::ChangeFlag;
use crate::outcome::{outcome_of, WatchResult};
use std::path::PathBuf;
use vstd::prelude::*;

verus! {

/// `std::path::PathBuf`, carried through as an opaque value: a location
/// or a configuration file, which only the builder reads.
#[verifier::external_type_specification]
#[verifier::external_body]
pub struct ExPathBuf(std::path::PathBuf);

/// The debounce interval, in nanoseconds: automatic rebuilds are attempted
/// only when more than this has passed since the last attempt.
pub const DEBOUNCE_NANOS: u64 = 300_000_000;

/// Whether more than the debounce interval lies between the last attempt
/// and `now`. A clock reading before the last attempt counts as no time
/// passed.
pub open spec fn debounce_elapsed(last_reload: u64, now: u64) -> bool {
    now - last_reload > DEBOUNCE_NANOS
}

/// The change flag's bit after one `mark`.
pub open spec fn mark(pending: bool) -> bool {
    true
}

/// The change flag's bit after `n` marks in a row, by whichever producers.
pub open spec fn marked(pending: bool, n: nat) -> bool
    decreases n,
{
    if n == 0 {
        pending
    } else {
        mark(marked(pending, (n - 1) as nat))
    }
}

/// One `consume` of the change flag: what it returns, then the bit it
/// leaves behind.
pub open spec fn consume(pending: bool) -> (bool, bool) {
    (pending, false)
}

/// What the consumer owns: the time of the last rebuild attempt, the
/// location, the configuration and the handle of the change flag, all
/// three fixed at construction, and the graph of the last successful
/// build.
pub struct WatchState<G> {
    pub last_reload: u64,
    pub path: PathBuf,
    pub config: PathBuf,
    pub changed: ChangeFlag,
    pub graph: G,
}

/// A consult as a whole: the consumer's state after it, the change flag's
/// bit after it, and the outcome reported.
pub struct Consult<G> {
    pub state: WatchState<G>,
    pub pending: bool,
    pub outcome: WatchResult,
}

impl<G> WatchState<G> {
    /// The state after a rebuild attempt that ended at `now` with `built`:
    /// the clock is reset either way, the graph is replaced only on
    /// success.
    pub open spec fn force_reload(self, built: Result<G, String>, now: u64) -> WatchState<G> {
        WatchState {
            last_reload: now,
            path: self.path,
            config: self.config,
            changed: self.changed,
            graph: match built {
                Ok(graph) => graph,
                Err(_) => self.graph,
            },
        }
    }

    /// Whether a consult at `now` attempts a rebuild, with the flag's bit
    /// at `pending`: only when the debounce interval has elapsed is the
    /// flag consumed at all.
    pub open spec fn rebuilds(self, pending: bool, now: u64) -> bool {
        debounce_elapsed(self.last_reload, now) && consume(pending).0
    }

    /// A whole consult at `now`, with the flag's bit at `pending`. Where it
    /// attempts a rebuild, `built` is what the builder returns and
    /// `finished` the clock's reading once it has returned.
    pub open spec fn poll(
        self,
        pending: bool,
        now: u64,
        built: Result<G, String>,
        finished: u64,
    ) -> Consult<G> {
        if !debounce_elapsed(self.last_reload, now) {
            Consult { state: self, pending, outcome: WatchResult::NoChange }
        } else if !consume(pending).0 {
            Consult { state: self, pending: consume(pending).1, outcome: WatchResult::NoChange }
        } else {
            Consult {
                state: self.force_reload(built, finished),
                pending: consume(pending).1,
                outcome: outcome_of(built),
            }
        }
    }
}

} // verus!
