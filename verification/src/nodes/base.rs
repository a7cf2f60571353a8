//! What every node has in common: the context it runs in, and the
//! operation it offers.

use crate::datum::Datum;
use crate::engine::WorkflowError;
use crate::heap::Heap;
use vstd::prelude::*;

verus! {

/// The context in which a node executes: read access to the heap, and the
/// identifier of the node, for diagnostics.
#[derive(Debug, Clone)]
pub struct BaseNodeRunOptions<'a> {
    heap: &'a Heap,
    prefix: String,
}

impl<'a> BaseNodeRunOptions<'a> {
    /// The heap that the context gives access to.
    pub closed spec fn heap_of(&self) -> Heap {
        *self.heap
    }

    /// The prefix of the context.
    pub closed spec fn prefix_of(&self) -> Seq<char> {
        self.prefix@
    }

    /// Creates a context over `heap` with the prefix `prefix`.
    pub fn new(heap: &'a Heap, prefix: &str) -> (options: Self)
        ensures
            options.heap_of() == *heap,
            options.prefix_of() == prefix@,
    {
        BaseNodeRunOptions { heap, prefix: String::from_str(prefix) }
    }

    /// The heap.
    pub fn heap(&self) -> (heap: &Heap)
        ensures
            *heap == self.heap_of(),
    {
        self.heap
    }

    /// The prefix.
    pub fn prefix(&self) -> (prefix: &str)
        ensures
            prefix@ == self.prefix_of(),
    {
        self.prefix.as_str()
    }

    /// Replaces the heap by `heap`.
    pub fn with_heap(self, heap: &'a Heap) -> (options: Self)
        ensures
            options.heap_of() == *heap,
            options.prefix_of() == self.prefix_of(),
    {
        let mut options = self;
        options.heap = heap;
        options
    }

    /// Replaces the prefix by `prefix`.
    pub fn with_prefix(self, prefix: &str) -> (options: Self)
        ensures
            options.heap_of() == self.heap_of(),
            options.prefix_of() == prefix@,
    {
        let mut options = self;
        options.prefix = String::from_str(prefix);
        options
    }
}

/// A node that can be executed.
///
/// This is the extension point of the engine: a new kind of node
/// implements this trait. The trait promises nothing of the result; each
/// implementation states its own.
pub trait BaseNode {
    /// Executes the node in the context `options`, and returns its result.
    fn execute(&self, options: BaseNodeRunOptions) -> Result<Datum, WorkflowError>;
}

} // verus!
