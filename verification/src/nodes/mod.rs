//! The nodes of the engine, and the builder that makes them.
//!
//! A node is chosen by the type tag of a workflow node. Adding a kind of
//! node means adding a variant to [`Node`] and a case to
//! [`NodeBuilder::build`]; the loop that runs a workflow stays as it is.

use crate::datum::{view_of, Datum, DatumView};
use crate::engine::{WorkflowError, WorkflowErrorView, WorkflowResult};
use crate::heap::{substituted, Heap, Store};
use crate::nodes::base::{BaseNode, BaseNodeRunOptions};
use crate::nodes::log::{log_outcome, outcome_view, LogNode};
use crate::workflow::node::{WorkflowNode, WorkflowNodeView};
use vstd::prelude::*;
use vstd::std_specs::convert::FromSpecImpl;

pub mod base;
pub mod log;

verus! {

/// A node that is ready to execute.
#[derive(Debug)]
pub enum Node {
    /// A log node.
    Log(LogNode),
}

/// The mathematical model of a [`Node`]: its kind, with its input.
pub ghost enum NodeView {
    Log(Option<DatumView>),
}

impl View for Node {
    type V = NodeView;

    open spec fn view(&self) -> NodeView {
        match self {
            Node::Log(node) => NodeView::Log(node@),
        }
    }
}

/// What a node gives when it executes.
pub open spec fn node_outcome(node: NodeView) -> Result<DatumView, WorkflowErrorView> {
    match node {
        NodeView::Log(input) => log_outcome(input),
    }
}

impl BaseNode for Node {
    /// Executes the node as its kind prescribes.
    fn execute(&self, options: BaseNodeRunOptions) -> (result: Result<Datum, WorkflowError>)
        ensures
            outcome_view(result) == node_outcome(self@),
    {
        match self {
            Node::Log(node) => node.execute(options),
        }
    }
}

/// Builds a node from the configuration of a workflow node.
#[derive(Debug, Clone)]
pub struct NodeBuilder {
    workflow_node: Option<WorkflowNode>,
    input: Option<Datum>,
}

/// The mathematical model of a [`NodeBuilder`].
pub ghost struct NodeBuilderView {
    pub workflow_node: Option<WorkflowNodeView>,
    pub input: Option<DatumView>,
}

impl View for NodeBuilder {
    type V = NodeBuilderView;

    closed spec fn view(&self) -> NodeBuilderView {
        NodeBuilderView {
            workflow_node: match self.workflow_node {
                Some(node) => Some(node@),
                None => None,
            },
            input: view_of(self.input),
        }
    }
}

/// The node that a type tag selects, given its input after substitution, or
/// `InvalidNode` with the tag where no node has it.
///
/// The tag is matched exactly; `Log` is the only one known.
pub open spec fn dispatch(tag: Seq<char>, input: Option<DatumView>) -> Result<
    NodeView,
    WorkflowErrorView,
> {
    if tag == "Log"@ {
        Ok(NodeView::Log(input))
    } else {
        Err(WorkflowErrorView::InvalidNode(tag))
    }
}

/// What building gives: `NodeBuilder` where no workflow node was
/// configured, else the node that the tag selects, with the configured
/// input after substitution against `store`.
pub open spec fn built(builder: NodeBuilderView, store: Store) -> Result<
    NodeView,
    WorkflowErrorView,
> {
    match builder.workflow_node {
        None => Err(
            WorkflowErrorView::NodeBuilder("No workflow node configuration provided"@),
        ),
        Some(node) => dispatch(node.node_type, substituted(builder.input, store)),
    }
}

/// The model of the result of building.
pub open spec fn built_view(result: WorkflowResult<Node>) -> Result<NodeView, WorkflowErrorView> {
    match result {
        Ok(node) => Ok(node@),
        Err(error) => Err(error@),
    }
}

impl NodeBuilder {
    /// Creates a builder without a configuration.
    pub fn new() -> (builder: Self)
        ensures
            builder@ == (NodeBuilderView { workflow_node: None, input: None }),
    {
        NodeBuilder { workflow_node: None, input: None }
    }

    /// Configures the builder with `workflow_node`, and takes its input.
    pub fn with_workflow_node(self, workflow_node: WorkflowNode) -> (builder: Self)
        ensures
            builder@ == (NodeBuilderView {
                workflow_node: Some(workflow_node@),
                input: workflow_node@.input,
            }),
    {
        let input = match &workflow_node.input {
            Some(value) => Some(value.clone()),
            None => None,
        };
        NodeBuilder { workflow_node: Some(workflow_node), input }
    }

    /// Sets the input to `input`, whatever the workflow node holds.
    pub fn with_input(self, input: Datum) -> (builder: Self)
        ensures
            builder@ == (NodeBuilderView {
                workflow_node: self@.workflow_node,
                input: Some(input@),
            }),
    {
        let mut builder = self;
        builder.input = Some(input);
        builder
    }

    /// Builds the node.
    ///
    /// The input is substituted against the heap as it is now. The heap is
    /// left as it is.
    pub fn build(self, heap: &mut Heap) -> (result: WorkflowResult<Node>)
        ensures
            built_view(result) == built(self@, old(heap)@),
            final(heap)@ == old(heap)@,
    {
        let input = heap.parse(self.input);
        match self.workflow_node {
            None => Err(
                WorkflowError::NodeBuilder(
                    String::from_str("No workflow node configuration provided"),
                ),
            ),
            Some(node) => {
                let log = String::from_str("Log");
                if node.node_type == log {
                    Ok(Node::Log(LogNode::new(input)))
                } else {
                    Err(WorkflowError::InvalidNode(node.node_type))
                }
            },
        }
    }

    /// The workflow node that the builder was configured with.
    pub fn workflow_node(&self) -> (node: Option<&WorkflowNode>)
        ensures
            match node {
                Some(node) => self@.workflow_node == Some(node@),
                None => self@.workflow_node is None,
            },
    {
        match &self.workflow_node {
            Some(node) => Some(node),
            None => None,
        }
    }

    /// The input that the builder holds.
    pub fn input(&self) -> (input: Option<&Datum>)
        ensures
            match input {
                Some(value) => self@.input == Some(value@),
                None => self@.input is None,
            },
    {
        match &self.input {
            Some(value) => Some(value),
            None => None,
        }
    }
}

impl Default for NodeBuilder {
    fn default() -> (builder: Self)
        ensures
            builder@ == (NodeBuilderView { workflow_node: None, input: None }),
    {
        NodeBuilder::new()
    }
}

impl From<WorkflowNode> for NodeBuilder {
    fn from(workflow_node: WorkflowNode) -> (builder: Self)
        ensures
            builder@ == (NodeBuilderView {
                workflow_node: Some(workflow_node@),
                input: workflow_node@.input,
            }),
    {
        NodeBuilder::new().with_workflow_node(workflow_node)
    }
}

impl FromSpecImpl<WorkflowNode> for NodeBuilder {
    open spec fn obeys_from_spec() -> bool {
        false
    }

    closed spec fn from_spec(workflow_node: WorkflowNode) -> Self {
        NodeBuilder { workflow_node: Some(workflow_node), input: workflow_node.input }
    }
}

} // verus!
