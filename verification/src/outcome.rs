use vstd::prelude::*;

verus! {

/// What one consult of the watcher came to.
#[derive(Debug, Clone, PartialEq, Eq)]
pub enum WatchResult {
    /// No changes were made.
    NoChange,
    /// Changes were made and the graph was rebuilt.
    Rebuilt,
    /// Changes were made but the graph could not be rebuilt.
    Failed(String),
}

/// What the caller of a consult has to do next.
#[derive(Debug, Clone, Copy, PartialEq, Eq, Structural)]
pub enum Action {
    /// Keep using the held graph; the consult's outcome is `NoChange`.
    Serve,
    /// Run the builder on the stored location and configuration, then
    /// report what it returned as a forced reload.
    Rebuild,
}

/// The outcome that a rebuild attempt with result `built` is reported as.
pub open spec fn outcome_of<G>(built: Result<G, String>) -> WatchResult {
    match built {
        Ok(_) => WatchResult::Rebuilt,
        Err(message) => WatchResult::Failed(message),
    }
}

} // verus!
