//! The HTTP side: token normalization, and the request pipeline's verified
//! decisions — the URL, the headers, the status interpretation, and the
//! permanent token-invalid latch.

pub mod pipeline;
pub mod token;
