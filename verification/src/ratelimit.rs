//! Per-route rate limiting: the bucket state driven by server headers, the
//! cluster-wide global lock, the header taxonomy, and the admission decisions
//! of a bucket's scheduler worker.

pub mod bucket;
pub mod global;
pub mod headers;
pub mod scheduler;
