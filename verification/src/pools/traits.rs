//! The pool interface.

use vstd::prelude::*;
use crate::errors::LoquatError;
use crate::pools::standard_pool::WorkerRegistration;
use crate::pools::types::PoolType;

verus! {

/// A pool: a stage of processing with workers registered by name and priority.
pub trait Pool {
    /// The pool's id.
    fn pool_id(&self) -> &str;

    /// The pool's type.
    fn pool_type(&self) -> PoolType;

    /// Register a worker.
    fn register(&mut self, registration: WorkerRegistration) -> Result<(), LoquatError>;

    /// Remove the worker named `name`.
    fn unregister(&mut self, name: &str) -> Result<(), LoquatError>;

    /// The names of the workers, in priority order.
    fn worker_names(&self) -> Vec<String>;

    /// The number of workers.
    fn worker_count(&self) -> usize;

    /// Whether a worker named `name` is registered.
    fn has_worker(&self, name: &str) -> bool;

    /// Give the worker named `name` a new priority.
    fn set_worker_priority(&mut self, name: &str, new_priority: u32) -> Result<(), LoquatError>;
}

} // verus!
