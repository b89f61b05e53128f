use std::sync::atomic::AtomicBool;
use std::sync::Arc;
use vstd::prelude::*;

verus! {

/// A sticky boolean shared by any number of producers and one consumer:
/// "has anything changed since the last consult?".
///
/// Every handle made by `clone` refers to the same cell. All accesses are
/// sequentially consistent, so a `mark` that completes before a `consume`
/// is seen by it. Other threads may mark at any moment, so no contract
/// here speaks of the bit itself; `crate::state` holds its sequential
/// model.
#[derive(Clone)]
pub struct ChangeFlag {
    cell: Arc<AtomicBool>,
}

impl ChangeFlag {
    /// A fresh flag, clear.
    pub fn new() -> (flag: ChangeFlag) {
        ChangeFlag { cell: Arc::new(AtomicBool::new(false)) }
    }

    /// Records that something changed. Never blocks, never fails.
    pub fn mark(&self) {
        self.cell.store(true, std::sync::atomic::Ordering::SeqCst);
    }

    /// Reads the flag and clears it in one indivisible step; returns what
    /// it held before.
    pub fn consume(&self) -> (pending: bool) {
        self.cell.swap(false, std::sync::atomic::Ordering::SeqCst)
    }
}

} // verus!
