//! The configuration snapshot a cycle runs with: the base URL of the pool
//! service and the name of the pool to follow.  Reading a configuration file
//! or the environment is the driver's business; this type only holds the two
//! resulting values.

use vstd::prelude::*;

verus! {

/// The two values every cycle needs: where the pool service lives and which
/// pool to follow.  Immutable for the duration of one cycle.
pub struct Config {
    pub server_url: String,
    pub pool_name: String,
}

impl Config {
    /// Builds a snapshot from the two resolved values.
    pub fn new(server_url: String, pool_name: String) -> (c: Config)
        ensures
            c.server_url@ == server_url@,
            c.pool_name@ == pool_name@,
    {
        Config { server_url, pool_name }
    }

    /// The base URL of the pool service.
    pub fn server_url(&self) -> (r: &String)
        ensures
            r@ == self.server_url@,
    {
        &self.server_url
    }

    /// The name of the pool this client follows.
    pub fn pool_name(&self) -> (r: &String)
        ensures
            r@ == self.pool_name@,
    {
        &self.pool_name
    }
}

impl Default for Config {
    /// The built-in fallback: a local server and the pool named `default`.
    fn default() -> (c: Config)
        ensures
            c.server_url@ == "http://localhost:46666"@,
            c.pool_name@ == "default"@,
    {
        Config {
            server_url: String::from_str("http://localhost:46666"),
            pool_name: String::from_str("default"),
        }
    }
}

} // verus!
