//! Cluster navigation and command execution for a Kafka administration
//! console: the lazily expanded topology tree, the serialized queue of
//! administrative commands, and the bounded tail read of a partition.

pub mod kafka;
pub mod text;
pub mod topology;
