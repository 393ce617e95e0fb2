//! The two limiters: one for what the session sends, one for the requests
//! made beside it.

pub mod bucket;
pub mod headers;
pub mod token_bucket;
