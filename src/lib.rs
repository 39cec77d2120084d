//! A registry of identity-verification requests: one request per subject,
//! reserved before the document digest is signed, then reviewed by an operator.

pub mod digest;
pub mod request;
pub mod model;
pub mod registry;
pub mod laws;
