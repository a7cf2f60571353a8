//! The log node: it returns its input as its result.

use crate::datum::{view_of, Datum, DatumView};
use crate::engine::{WorkflowError, WorkflowErrorView};
use crate::nodes::base::{BaseNode, BaseNodeRunOptions};
use vstd::prelude::*;
use vstd::std_specs::convert::FromSpecImpl;

verus! {

/// A node that passes its input on as its result.
#[derive(Debug, Clone)]
pub struct LogNode {
    input: Option<Datum>,
}

impl View for LogNode {
    type V = Option<DatumView>;

    closed spec fn view(&self) -> Option<DatumView> {
        view_of(self.input)
    }
}

/// What a log node with the input `input` gives when it executes: the
/// input itself, or a failure where it has none.
pub open spec fn log_outcome(input: Option<DatumView>) -> Result<DatumView, WorkflowErrorView> {
    match input {
        Some(value) => Ok(value),
        None => Err(WorkflowErrorView::NodeExecutionFailed("Log node requires an input value"@)),
    }
}

/// The model of the result of an execution.
pub open spec fn outcome_view(result: Result<Datum, WorkflowError>) -> Result<
    DatumView,
    WorkflowErrorView,
> {
    match result {
        Ok(value) => Ok(value@),
        Err(error) => Err(error@),
    }
}

impl LogNode {
    /// Creates a log node with the input `input`.
    pub fn new(input: Option<Datum>) -> (node: Self)
        ensures
            node@ == view_of(input),
    {
        LogNode { input }
    }

    /// The node's input.
    pub fn input(&self) -> (input: Option<&Datum>)
        ensures
            match input {
                Some(value) => self@ == Some(value@),
                None => self@ is None,
            },
    {
        match &self.input {
            Some(value) => Some(value),
            None => None,
        }
    }
}

impl BaseNode for LogNode {
    /// Returns the input, or fails with `NodeExecutionFailed` where the
    /// node has none.
    fn execute(&self, options: BaseNodeRunOptions) -> (result: Result<Datum, WorkflowError>)
        ensures
            outcome_view(result) == log_outcome(self@),
    {
        match &self.input {
            Some(value) => Ok(value.clone()),
            None => Err(
                WorkflowError::NodeExecutionFailed(
                    String::from_str("Log node requires an input value"),
                ),
            ),
        }
    }
}

impl Default for LogNode {
    fn default() -> (node: Self)
        ensures
            node@ is None,
    {
        LogNode { input: None }
    }
}

impl From<Datum> for LogNode {
    fn from(input: Datum) -> (node: Self)
        ensures
            node@ == Some(input@),
    {
        LogNode { input: Some(input) }
    }
}

impl FromSpecImpl<Datum> for LogNode {
    open spec fn obeys_from_spec() -> bool {
        true
    }

    closed spec fn from_spec(input: Datum) -> Self {
        LogNode { input: Some(input) }
    }
}

impl From<Option<Datum>> for LogNode {
    fn from(input: Option<Datum>) -> (node: Self)
        ensures
            node@ == view_of(input),
    {
        LogNode { input }
    }
}

impl FromSpecImpl<Option<Datum>> for LogNode {
    open spec fn obeys_from_spec() -> bool {
        true
    }

    closed spec fn from_spec(input: Option<Datum>) -> Self {
        LogNode { input }
    }
}

} // verus!
