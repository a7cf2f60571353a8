//! A declared variable of a workflow.

use crate::datum::{Datum, DatumView};
use vstd::prelude::*;

verus! {

/// A variable that a workflow declares. It documents the workflow; the
/// engine never loads it into the heap.
#[derive(Debug, Clone)]
pub struct WorkflowVariable {
    /// The variable's name.
    pub name: String,
    /// The variable's value.
    pub value: Datum,
}

/// The mathematical model of a [`WorkflowVariable`].
pub ghost struct WorkflowVariableView {
    pub name: Seq<char>,
    pub value: DatumView,
}

impl View for WorkflowVariable {
    type V = WorkflowVariableView;

    open spec fn view(&self) -> WorkflowVariableView {
        WorkflowVariableView { name: self.name@, value: self.value@ }
    }
}

impl WorkflowVariable {
    /// Declares the variable `name` with the value `value`.
    pub fn new(name: &str, value: Datum) -> (variable: Self)
        ensures
            variable@ == (WorkflowVariableView { name: name@, value: value@ }),
    {
        WorkflowVariable { name: String::from_str(name), value }
    }
}

} // verus!
