//! Pool validator: bounds how many times a package may cycle inside a pool.

use vstd::prelude::*;
use crate::errors::LoquatError;
use crate::events::package::Package;
use crate::logging::logger::{entry_written, is_not_initialized, StructuredLogger};
use crate::logging::traits::{level_rank, LogContext, LogEntry, LogFormatter, LogLevel, LogWriter};

verus! {

/// Checks for potential dead loops in pool processing.
#[derive(Debug, Clone)]
pub struct PoolValidator {
    max_iterations: usize,
}

/// The warning logged when the worker `worker` produced output that would
/// match itself, for the package `package_id`.
pub open spec fn dead_loop_text(worker: Seq<char>, package_id: Seq<char>) -> Seq<char> {
    "Potential dead loop detected: Worker '"@ + worker + "' produced output that would match itself. Package ID: "@ + package_id
}

impl PoolValidator {
    /// The iteration limit of this validator.
    pub closed spec fn spec_max_iterations(&self) -> usize {
        self.max_iterations
    }

    /// A validator with the default limit of 100 iterations.
    pub fn new() -> (r: Self)
        ensures
            r.spec_max_iterations() == 100,
    {
        PoolValidator { max_iterations: 100 }
    }

    /// A validator with a custom iteration limit.
    pub fn with_max_iterations(max_iterations: usize) -> (r: Self)
        ensures
            r.spec_max_iterations() == max_iterations,
    {
        PoolValidator { max_iterations }
    }

    /// Whether a package that has gone through `current_iterations` rounds may go on.
    pub fn check_iterations(&self, current_iterations: usize) -> (r: bool)
        ensures
            r == (current_iterations < self.spec_max_iterations()),
    {
        current_iterations < self.max_iterations
    }

    /// The iteration limit.
    pub fn max_iterations(&self) -> (r: usize)
        ensures
            r == self.spec_max_iterations(),
    {
        self.max_iterations
    }

    /// The warning text logged when a worker's output would match the worker itself.
    pub fn dead_loop_warning(&self, worker_name: &str, package_id: &str) -> (r: String)
        ensures
            r@ == dead_loop_text(worker_name@, package_id@),
    {
        let mut r = String::from_str("Potential dead loop detected: Worker '");
        r.append(worker_name);
        r.append("' produced output that would match itself. Package ID: ");
        r.append(package_id);
        r
    }

    /// Log the dead-loop warning for `worker_name` and `package` at level Warn.
    pub fn log_dead_loop_warning<F: LogFormatter, W: LogWriter>(
        &self,
        logger: &StructuredLogger<F, W>,
        worker_name: &str,
        package: &Package,
    ) -> (r: Result<(), LoquatError>)
        ensures
            !logger.spec_initialized() ==> is_not_initialized(r),
            logger.spec_initialized() && level_rank(LogLevel::Warn) < level_rank(
                logger.spec_level(),
            ) ==> r is Ok,
            logger.spec_initialized() && level_rank(LogLevel::Warn) >= level_rank(
                logger.spec_level(),
            ) ==> exists|e: LogEntry, t: Seq<char>|
                #[trigger] entry_written(logger.spec_formatter(), logger.spec_writer(), e, t, r)
                    && e.level == LogLevel::Warn && e.message@ == dead_loop_text(
                    worker_name@,
                    package.package_id@,
                ) && e.context.correlation_id is None && e.context.user_id is None
                    && e.context.session_id is None && e.context.component is None
                    && e.context.metadata@.len() == 0 && e.module is None && e.file is None
                    && e.line is None,
    {
        let message = self.dead_loop_warning(worker_name, package.package_id.as_str());
        let context = LogContext::new();
        logger.log(LogLevel::Warn, message.as_str(), &context)
    }
}

impl Default for PoolValidator {
    fn default() -> (r: Self)
        ensures
            r.spec_max_iterations() == 100,
    {
        Self::new()
    }
}

} // verus!
