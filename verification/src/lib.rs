//! Handle-based bridge core for driving an image-processing engine.
//!
//! A host runtime creates jobs, attaches named input/output data ports to
//! them by small integer id, forwards JSON-encoded commands to the engine
//! collaborator, and destroys the jobs when done. This crate holds the
//! verified core of that bridge: the registry that maps opaque numeric
//! handles to live job contexts, the per-job port tables, and the dispatch
//! layer that validates handles and ports before any work is forwarded.
//!
//! The engine collaborator itself (decoding, encoding, pixel work) and the
//! host's marshaling layer are outside this core; the dispatch layer hands
//! them plain values and takes plain values back.

pub mod assoc;
pub mod dispatch;
pub mod errors;
pub mod job;
pub mod laws;
pub mod ports;
pub mod registry;
