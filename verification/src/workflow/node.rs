//! A node: one step of a workflow.

use crate::datum::{view_of, Datum, DatumView};
use vstd::prelude::*;

verus! {

/// One step of a workflow.
#[derive(Debug)]
pub struct WorkflowNode {
    /// The node's identifier, which is also the key of its result in the heap.
    pub id: String,
    /// The type tag, which selects what the node does.
    pub node_type: String,
    /// The node's input, before substitution.
    pub input: Option<Datum>,
    /// A condition attached to the node. It is carried; nothing evaluates it.
    pub when: Option<String>,
}

/// The mathematical model of a [`WorkflowNode`].
pub ghost struct WorkflowNodeView {
    pub id: Seq<char>,
    pub node_type: Seq<char>,
    pub input: Option<DatumView>,
    pub when: Option<Seq<char>>,
}

impl View for WorkflowNode {
    type V = WorkflowNodeView;

    open spec fn view(&self) -> WorkflowNodeView {
        WorkflowNodeView {
            id: self.id@,
            node_type: self.node_type@,
            input: view_of(self.input),
            when: match self.when {
                Some(text) => Some(text@),
                None => None,
            },
        }
    }
}

impl Clone for WorkflowNode {
    fn clone(&self) -> (copy: Self)
        ensures
            copy@ == self@,
    {
        WorkflowNode {
            id: self.id.clone(),
            node_type: self.node_type.clone(),
            input: match &self.input {
                Some(value) => Some(value.clone()),
                None => None,
            },
            when: match &self.when {
                Some(text) => Some(text.clone()),
                None => None,
            },
        }
    }
}

impl WorkflowNode {
    /// Creates a node without a condition.
    pub fn new(id: &str, node_type: &str, input: Option<Datum>) -> (node: Self)
        ensures
            node@ == (WorkflowNodeView {
                id: id@,
                node_type: node_type@,
                input: view_of(input),
                when: None,
            }),
    {
        WorkflowNode {
            id: String::from_str(id),
            node_type: String::from_str(node_type),
            input,
            when: None,
        }
    }

    /// Creates a node with the condition `when`.
    pub fn with_condition(id: &str, node_type: &str, input: Option<Datum>, when: &str) -> (node:
        Self)
        ensures
            node@ == (WorkflowNodeView {
                id: id@,
                node_type: node_type@,
                input: view_of(input),
                when: Some(when@),
            }),
    {
        WorkflowNode {
            id: String::from_str(id),
            node_type: String::from_str(node_type),
            input,
            when: Some(String::from_str(when)),
        }
    }

    /// Tests whether the node has a condition.
    pub fn has_condition(&self) -> (r: bool)
        ensures
            r == self@.when is Some,
    {
        self.when.is_some()
    }
}

} // verus!
