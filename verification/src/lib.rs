//! Verified core of the `keentools-cloud` command-line client: input
//! validation, request building, response interpretation, download
//! post-processing, self-update decisions and the introspection schema.
//! Everything that talks to the network, the terminal or the file system
//! lives in the application crate that wraps this library.
use vstd::prelude::*;

pub mod archive;
pub mod auth;
pub mod cli;
pub mod client;
pub mod config;
pub mod download;
pub mod exit;
pub mod json;
pub mod laws;
pub mod output;
pub mod pipeline;
pub mod request;
pub mod schema;
pub mod self_update;
pub mod status;
pub mod text;
pub mod upload;
pub mod validate;

verus! {

} // verus!
