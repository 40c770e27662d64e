//! Creation of a deployment record against a Git hosting provider's
//! REST API and the transition of its status.
//!
//! The library holds the deployment protocol itself: the request
//! payloads and URLs, the parsing and checking of the provider's
//! responses, the status vocabulary, and the decisions of the
//! command-wrapping mode. Network transport and the command line are
//! left to the surrounding program, which hands the raw HTTP outcome
//! to the functions here.

pub mod deploy;
pub mod http;
pub mod json;
pub mod runner;
pub mod status;
pub mod text;
