//! The workflow document model.

pub mod input;
pub mod node;
pub mod options;
pub mod output;
pub mod status;
pub mod variable;
pub mod workflow;
