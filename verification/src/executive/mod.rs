//! Native executors of the runtimes the node can carry.

pub mod node_template;
pub mod sparrow;
pub mod template;
