//! Control plane of a staged site-to-application pipeline: a line-delimited
//! JSON-RPC front-end, the decisions of the worker supervisor, and the stage
//! handlers that normalise parameters and shape manifests, job logs and replies.
pub mod effects;
pub mod error;
pub mod fields;
pub mod fresh;
pub mod json;
pub mod layout;
pub mod params;
pub mod protocol;
pub mod session;
pub mod stages;
pub mod supervisor;
