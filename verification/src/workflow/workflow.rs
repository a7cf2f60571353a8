//! The workflow document.

use crate::workflow::input::WorkflowInput;
use crate::workflow::node::{WorkflowNode, WorkflowNodeView};
use crate::workflow::options::WorkflowOptions;
use crate::workflow::output::WorkflowOutput;
use crate::workflow::variable::WorkflowVariable;
use vstd::prelude::*;

verus! {

/// A workflow: metadata, declarations, and an ordered list of nodes.
#[derive(Debug, Clone)]
pub struct Workflow {
    /// An identifier for the workflow.
    pub id: Option<String>,
    /// A name for people to read.
    pub name: Option<String>,
    /// The version of the definition.
    pub version: Option<String>,
    /// Declared variables. The engine never loads them into the heap.
    pub variables: Option<Vec<WorkflowVariable>>,
    /// Declared inputs.
    pub inputs: Option<Vec<WorkflowInput>>,
    /// The nodes, in the order in which they run.
    pub nodes: Option<Vec<WorkflowNode>>,
    /// The declared output.
    pub output: Option<WorkflowOutput>,
    /// Execution options.
    pub options: Option<WorkflowOptions>,
}

/// The model of an optional text.
pub open spec fn text_of(text: Option<String>) -> Option<Seq<char>> {
    match text {
        Some(text) => Some(text@),
        None => None,
    }
}

/// The models of a list of nodes, in order.
pub open spec fn node_views(nodes: Seq<WorkflowNode>) -> Seq<WorkflowNodeView> {
    Seq::new(nodes.len(), |i: int| nodes[i]@)
}

impl Workflow {
    /// The nodes of the workflow, in order; none where it declares none.
    pub open spec fn steps(&self) -> Seq<WorkflowNodeView> {
        match self.nodes {
            Some(nodes) => node_views(nodes@),
            None => Seq::empty(),
        }
    }

    /// Creates a workflow with the name `name` and nothing else.
    pub fn new(name: &str) -> (workflow: Self)
        ensures
            text_of(workflow.name) == Some(name@),
            workflow.id is None,
            workflow.version is None,
            workflow.variables is None,
            workflow.inputs is None,
            workflow.nodes is None,
            workflow.output is None,
            workflow.options is None,
    {
        Workflow {
            id: None,
            name: Some(String::from_str(name)),
            version: None,
            variables: None,
            inputs: None,
            nodes: None,
            output: None,
            options: None,
        }
    }

    /// Sets the identifier to `id`.
    pub fn with_id(self, id: &str) -> (workflow: Self)
        ensures
            text_of(workflow.id) == Some(id@),
            workflow.name == self.name,
            workflow.version == self.version,
            workflow.variables == self.variables,
            workflow.inputs == self.inputs,
            workflow.nodes == self.nodes,
            workflow.output == self.output,
            workflow.options == self.options,
    {
        let mut workflow = self;
        workflow.id = Some(String::from_str(id));
        workflow
    }

    /// Sets the version to `version`.
    pub fn with_version(self, version: &str) -> (workflow: Self)
        ensures
            text_of(workflow.version) == Some(version@),
            workflow.id == self.id,
            workflow.name == self.name,
            workflow.variables == self.variables,
            workflow.inputs == self.inputs,
            workflow.nodes == self.nodes,
            workflow.output == self.output,
            workflow.options == self.options,
    {
        let mut workflow = self;
        workflow.version = Some(String::from_str(version));
        workflow
    }

    /// The name, or `default` where the workflow has none.
    pub fn name_or(&self, default: &str) -> (name: String)
        ensures
            name@ == match self.name {
                Some(own) => own@,
                None => default@,
            },
    {
        match &self.name {
            Some(own) => own.clone(),
            None => String::from_str(default),
        }
    }

    /// The version, or `default` where the workflow has none.
    pub fn version_or(&self, default: &str) -> (version: String)
        ensures
            version@ == match self.version {
                Some(own) => own@,
                None => default@,
            },
    {
        match &self.version {
            Some(own) => own.clone(),
            None => String::from_str(default),
        }
    }

    /// The number of nodes; 0 where the workflow declares none.
    pub fn node_count(&self) -> (count: usize)
        ensures
            count == self.steps().len(),
    {
        match &self.nodes {
            Some(nodes) => nodes.len(),
            None => 0,
        }
    }

    /// Tests whether the workflow has at least one node.
    pub fn has_nodes(&self) -> (r: bool)
        ensures
            r == (self.steps().len() > 0),
    {
        self.node_count() > 0
    }

    /// The nodes, where the workflow declares any.
    pub fn nodes(&self) -> (nodes: Option<&[WorkflowNode]>)
        ensures
            match nodes {
                Some(nodes) => self.nodes matches Some(own) && nodes@ == own@,
                None => self.nodes is None,
            },
    {
        match &self.nodes {
            Some(nodes) => Some(nodes.as_slice()),
            None => None,
        }
    }

    /// The nodes, for changing them, where the workflow declares any.
    pub fn nodes_mut(&mut self) -> (nodes: Option<&mut Vec<WorkflowNode>>)
        ensures
            match nodes {
                Some(nodes) => old(self).nodes == Some(*nodes) && final(self).nodes == Some(
                    *final(nodes),
                ),
                None => old(self).nodes is None && final(self).nodes is None,
            },
            final(self).id == old(self).id,
            final(self).name == old(self).name,
            final(self).version == old(self).version,
            final(self).variables == old(self).variables,
            final(self).inputs == old(self).inputs,
            final(self).output == old(self).output,
            final(self).options == old(self).options,
    {
        match &mut self.nodes {
            Some(nodes) => Some(nodes),
            None => None,
        }
    }

    /// Appends `node` to the nodes.
    pub fn add_node(&mut self, node: WorkflowNode)
        ensures
            final(self).steps() == old(self).steps().push(node@),
            final(self).nodes is Some,
            final(self).id == old(self).id,
            final(self).name == old(self).name,
            final(self).version == old(self).version,
            final(self).variables == old(self).variables,
            final(self).inputs == old(self).inputs,
            final(self).output == old(self).output,
            final(self).options == old(self).options,
    {
        let mut nodes = match self.nodes.take() {
            Some(nodes) => nodes,
            None => Vec::new(),
        };
        nodes.push(node);
        self.nodes = Some(nodes);
        assert(self.steps() =~= old(self).steps().push(node@));
    }
}

impl Default for Workflow {
    fn default() -> (workflow: Self)
        ensures
            workflow.id is None,
            workflow.name is None,
            workflow.version is None,
            workflow.variables is None,
            workflow.inputs is None,
            workflow.nodes is None,
            workflow.output is None,
            workflow.options is None,
    {
        Workflow {
            id: None,
            name: None,
            version: None,
            variables: None,
            inputs: None,
            nodes: None,
            output: None,
            options: None,
        }
    }
}

} // verus!
