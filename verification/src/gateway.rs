//! The gateway side: the shard session state machine, the serialized
//! identify queue, the durable resume token, and the cluster that owns many
//! shards.

pub mod cluster;
pub mod queue;
pub mod resume;
pub mod session;
pub mod shard_builder;
