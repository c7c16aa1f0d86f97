//! Runtime for a code-generator plugin driven by a host over line-delimited JSON.
//!
//! The library holds the decisions: which method a request names, what is
//! answered to it, when the session ends, in what order the generation
//! steps run and what the generated file holds. Reading, writing and the
//! schema tooling are performed by the caller, which reports back.
pub mod json;

pub mod identity;
pub mod protocol;
pub mod session;
pub mod pipeline;
