//! Colossus: a workflow execution engine.
//!
//! A workflow is an ordered list of nodes. Each node's input may refer to the
//! results of earlier nodes through `${{ name }}` tokens, which are resolved
//! against a shared heap before the node runs.
//!
//! What is taken on trust is marked as such where it stands: the YAML
//! encoding of values in [`yaml`], and the extension and the display of a
//! path in [`engine`].

pub mod cli;
pub mod datum;
pub mod engine;
pub mod heap;
pub mod nodes;
pub mod text;
pub mod workflow;
pub mod yaml;
