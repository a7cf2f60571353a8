//! A declared input of a workflow.

use crate::datum::{view_of, Datum, DatumView};
use vstd::prelude::*;

verus! {

/// An input that a workflow declares. It documents the workflow; the engine
/// does not read it.
#[derive(Debug, Clone)]
pub struct WorkflowInput {
    /// The input's name.
    pub name: String,
    /// The type that the input is declared with.
    pub input_type: String,
    /// The value to use where none is given.
    pub default: Option<Datum>,
}

/// The mathematical model of a [`WorkflowInput`].
pub ghost struct WorkflowInputView {
    pub name: Seq<char>,
    pub input_type: Seq<char>,
    pub default: Option<DatumView>,
}

impl View for WorkflowInput {
    type V = WorkflowInputView;

    open spec fn view(&self) -> WorkflowInputView {
        WorkflowInputView {
            name: self.name@,
            input_type: self.input_type@,
            default: view_of(self.default),
        }
    }
}

impl WorkflowInput {
    /// Declares an input without a default value.
    pub fn new(name: &str, input_type: &str) -> (input: Self)
        ensures
            input@ == (WorkflowInputView { name: name@, input_type: input_type@, default: None }),
    {
        WorkflowInput {
            name: String::from_str(name),
            input_type: String::from_str(input_type),
            default: None,
        }
    }

    /// Declares an input with the default value `default`.
    pub fn with_default(name: &str, input_type: &str, default: Datum) -> (input: Self)
        ensures
            input@ == (WorkflowInputView {
                name: name@,
                input_type: input_type@,
                default: Some(default@),
            }),
    {
        WorkflowInput {
            name: String::from_str(name),
            input_type: String::from_str(input_type),
            default: Some(default),
        }
    }
}

} // verus!
