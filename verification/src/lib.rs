//! A request-body decoder that says where in the document a failure lies.
//!
//! The body of a request is decoded as JSON by a path-tracking pass. When that
//! pass fails, the failure is turned into a client error whose message names
//! the path to the offending node and the cause found there.

pub mod json;
pub mod path;
pub mod diagnostic;
pub mod capture;
pub mod extract;
