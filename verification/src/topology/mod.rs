//! The topology of the known clusters, as the operator browses it.

pub mod model;
pub mod order;
pub mod server_info;
pub mod topic_info;
pub mod tree;
