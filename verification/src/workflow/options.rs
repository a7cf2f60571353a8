//! Execution options of a workflow.

use vstd::prelude::*;

verus! {

/// Options that say how a workflow should be executed.
#[derive(Debug, Clone)]
pub struct WorkflowOptions {
    /// The largest number of nodes to execute at once, where one is set.
    pub concurrency: Option<u32>,
}

impl WorkflowOptions {
    /// Creates options without a concurrency limit.
    pub fn new() -> (options: Self)
        ensures
            options.concurrency is None,
    {
        WorkflowOptions { concurrency: None }
    }

    /// Creates options with the concurrency limit `concurrency`.
    pub fn with_concurrency(concurrency: u32) -> (options: Self)
        ensures
            options.concurrency == Some(concurrency),
    {
        WorkflowOptions { concurrency: Some(concurrency) }
    }

    /// Sets the concurrency limit to `concurrency`.
    pub fn with_concurrency_limit(self, concurrency: u32) -> (options: Self)
        ensures
            options.concurrency == Some(concurrency),
    {
        let mut options = self;
        options.concurrency = Some(concurrency);
        options
    }

    /// The concurrency limit, or `default` where none is set.
    pub fn concurrency_or(&self, default: u32) -> (limit: u32)
        ensures
            limit == match self.concurrency {
                Some(set) => set,
                None => default,
            },
    {
        match self.concurrency {
            Some(set) => set,
            None => default,
        }
    }

    /// Tests whether a concurrency limit is set.
    pub fn has_concurrency_limit(&self) -> (r: bool)
        ensures
            r == self.concurrency is Some,
    {
        self.concurrency.is_some()
    }
}

impl Default for WorkflowOptions {
    fn default() -> (options: Self)
        ensures
            options.concurrency is None,
    {
        WorkflowOptions::new()
    }
}

} // verus!
