//! A live-reload rendering pipeline for a local development server.
//!
//! Templates compiled from a base directory are rendered against the most
//! recent JSON document read from an input stream.  Filesystem changes are
//! classified in batches and trigger template recompilation; every update is
//! broadcast to subscribed browsers through a reload channel.

use vstd::prelude::*;

pub mod notify;
pub mod reload;
pub mod render;
pub mod server;
pub mod templates;
pub mod value;

verus! {

/// Configuration consumed by the pipeline: where the HTTP transport binds,
/// which directory holds the template sources, and whether that directory is
/// watched for changes.
pub struct Options {
    pub server: crate::server::Options,
    pub base: String,
    pub watch: bool,
}

} // verus!
