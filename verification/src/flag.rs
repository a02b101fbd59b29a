//! The shared "a job is running" cell.
//!
//! The supervisor and at most one worker each hold a handle to the
//! same boolean cell.  Its value changes from another thread between
//! any two calls, so nothing is promised about what a read returns;
//! the supervisor keeps its own last-observed copy instead.

use vstd::prelude::*;

verus! {

/// A reference-counted, mutex-guarded boolean shared between the
/// supervisor and one worker.
#[verifier::external_body]
pub struct SharedFlag {
    cell: std::sync::Arc<std::sync::Mutex<bool>>,
}

impl SharedFlag {
    /// Relies on `std::sync::Arc::new` and `std::sync::Mutex::new`: a
    /// fresh cell holding `value`, shared with nobody yet.
    #[verifier::external_body]
    pub(crate) fn new(value: bool) -> SharedFlag {
        SharedFlag { cell: std::sync::Arc::new(std::sync::Mutex::new(value)) }
    }

    /// Relies on `std::sync::Arc::clone`: another handle to the same
    /// cell.
    #[verifier::external_body]
    pub(crate) fn clone_handle(&self) -> SharedFlag {
        SharedFlag { cell: std::sync::Arc::clone(&self.cell) }
    }

    /// Relies on `std::sync::Mutex::lock`: stores `value` in the cell,
    /// waiting for the lock if a reader holds it.
    #[verifier::external_body]
    pub(crate) fn set(&self, value: bool) {
        *self.cell.lock().unwrap() = value;
    }

    /// Relies on `std::sync::Mutex::try_lock`: the value in the cell,
    /// or nothing when the lock is contended right now.
    #[verifier::external_body]
    pub(crate) fn try_read(&self) -> Option<bool> {
        match self.cell.try_lock() {
            Ok(v) => Some(*v),
            Err(_) => None,
        }
    }
}

} // verus!
