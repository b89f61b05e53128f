use crate::flag::ChangeFlag;
use crate::outcome::{outcome_of, Action, WatchResult};
use crate::state::{debounce_elapsed, WatchState, DEBOUNCE_NANOS};
use std::path::PathBuf;
use vstd::prelude::*;

verus! {

/// Watches over one graph: holds the graph of the last successful build,
/// the time of the last rebuild attempt and the change flag that the
/// background sources mark, and decides when a rebuild is due.
///
/// The watcher never runs the builder itself. Its caller does, on the
/// stored location and configuration, and hands the result back together
/// with a reading of a monotonic clock in nanoseconds.
pub struct ShaderGraphWatcher<G> {
    last_reload: u64,
    path: PathBuf,
    config: PathBuf,
    changed: ChangeFlag,
    shader_graph: G,
}

impl<G> View for ShaderGraphWatcher<G> {
    type V = WatchState<G>;

    closed spec fn view(&self) -> WatchState<G> {
        WatchState {
            last_reload: self.last_reload,
            path: self.path,
            config: self.config,
            changed: self.changed,
            graph: self.shader_graph,
        }
    }
}

impl<G> ShaderGraphWatcher<G> {
    /// Creates a watcher from the result of the first build, which ended at
    /// `now`, over the change flag that the background sources were handed.
    /// There is no watcher without a graph: where the first build failed,
    /// its error is all that comes back.
    pub fn new_watch_dir(
        path: PathBuf,
        config: PathBuf,
        changed: ChangeFlag,
        built: Result<G, String>,
        now: u64,
    ) -> (res: Result<ShaderGraphWatcher<G>, String>)
        ensures
            match res {
                Ok(watcher) => built is Ok && watcher@ == (WatchState {
                    last_reload: now,
                    path,
                    config,
                    changed,
                    graph: built->Ok_0,
                }),
                Err(message) => built is Err && message == built->Err_0,
            },
    {
        match built {
            Ok(shader_graph) => Ok(
                ShaderGraphWatcher { last_reload: now, path, config, changed, shader_graph },
            ),
            Err(message) => Err(message),
        }
    }

    /// The location that every build reads.
    pub fn path(&self) -> (path: &PathBuf)
        ensures
            *path == self@.path,
    {
        &self.path
    }

    /// The configuration that every build reads.
    pub fn config(&self) -> (config: &PathBuf)
        ensures
            *config == self@.config,
    {
        &self.config
    }

    /// The change flag that the background sources mark: the handle that
    /// the watcher was made with, which no operation replaces.
    pub fn change_flag(&self) -> (flag: &ChangeFlag)
        ensures
            *flag == self@.changed,
    {
        &self.changed
    }

    /// The clock's reading at the last rebuild attempt.
    pub fn last_reload(&self) -> (at: u64)
        ensures
            at == self@.last_reload,
    {
        self.last_reload
    }

    /// Whether more than the debounce interval has passed at `now` since
    /// the last rebuild attempt.
    pub fn debounce_elapsed(&self, now: u64) -> (elapsed: bool)
        ensures
            elapsed == debounce_elapsed(self@.last_reload, now),
    {
        now > self.last_reload && now - self.last_reload > DEBOUNCE_NANOS
    }

    /// Gets the graph without consulting the change flag or the clock, and
    /// without clearing a pending change.
    pub fn graph_no_reload(&mut self) -> (graph: &mut G)
        ensures
            *graph == old(self)@.graph,
            final(self)@ == (WatchState { graph: *final(graph), ..old(self)@ }),
    {
        &mut self.shader_graph
    }

    /// Records a rebuild attempt that ended at `now` with `built`, whatever
    /// the debounce clock and the change flag say. A successful build
    /// replaces the held graph; a failed one leaves it as it was and is
    /// reported with the builder's message. Both reset the debounce clock.
    pub fn graph_force_reload(&mut self, built: Result<G, String>, now: u64) -> (res: (
        &mut G,
        WatchResult,
    ))
        ensures
            res.1 == outcome_of(built),
            *res.0 == old(self)@.force_reload(built, now).graph,
            final(self)@ == (WatchState {
                graph: *final(res.0),
                ..old(self)@.force_reload(built, now)
            }),
    {
        let watch_result = match built {
            Ok(graph) => {
                self.shader_graph = graph;
                WatchResult::Rebuilt
            },
            Err(error) => WatchResult::Failed(error),
        };
        self.last_reload = now;
        (&mut self.shader_graph, watch_result)
    }

    /// The action that a consult at `now` comes to when the change flag, had
    /// it been consumed, held `pending`.
    pub fn action_for(&self, pending: bool, now: u64) -> (action: Action)
        ensures
            action == Action::Rebuild <==> self@.rebuilds(pending, now),
            action == Action::Serve <==> !self@.rebuilds(pending, now),
    {
        if self.debounce_elapsed(now) && pending {
            Action::Rebuild
        } else {
            Action::Serve
        }
    }

    /// Decides at `now` whether a rebuild is due, and changes nothing of
    /// the watcher. Within the debounce interval the answer is `Serve` and
    /// the change flag is not touched, so a pending change stays pending.
    /// Past it, the flag is consumed, and the answer is `Rebuild` exactly
    /// if it was set.
    ///
    /// On `Rebuild` the caller runs the builder and reports its result
    /// with `graph_force_reload`; on `Serve` the consult's outcome is
    /// `NoChange` and `graph_no_reload` gives the graph.
    pub fn graph(&mut self, now: u64) -> (action: Action)
        ensures
            final(self)@ == old(self)@,
            !debounce_elapsed(old(self)@.last_reload, now) ==> action == Action::Serve,
    {
        if self.debounce_elapsed(now) {
            let pending = self.changed.consume();
            self.action_for(pending, now)
        } else {
            Action::Serve
        }
    }
}

} // verus!
