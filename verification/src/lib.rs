//! Hot-reload coordination: a sticky change flag fed by background sources,
//! a debounce clock, and a watcher that keeps the last good graph while
//! rebuild attempts succeed or fail.

pub mod flag;
pub mod laws;
pub mod outcome;
pub mod state;
pub mod watcher;
