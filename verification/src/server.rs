//! Configuration of the HTTP transport that hosts the pipeline.
//!
//! Resolving the hostname and binding the socket are the transport's own
//! business; the library only carries the values.

use vstd::prelude::*;

verus! {

/// Where the HTTP transport listens for connections.
pub struct Options {
    pub hostname: String,
    pub port: u16,
}

impl Default for Options {
    /// The conventional development address: `localhost:3000`.
    fn default() -> (r: Options)
        ensures
            r.hostname@ == "localhost"@,
            r.port == 3000,
    {
        Options { hostname: String::from_str("localhost"), port: 3000 }
    }
}

} // verus!
