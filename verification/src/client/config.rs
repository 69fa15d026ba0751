//! Where the engine is reached.

use vstd::prelude::*;

verus! {

/// Where the engine is reached: the address of its host and the port it
/// listens on.
#[derive(Debug)]
pub struct CathbadClientConfig {
    pub druid_endpoint: String,
    pub druid_port: u32,
}

impl CathbadClientConfig {
    /// A copy of this configuration.
    pub fn duplicate(&self) -> (r: CathbadClientConfig)
        ensures
            r.druid_endpoint@ == self.druid_endpoint@,
            r.druid_port == self.druid_port,
    {
        CathbadClientConfig {
            druid_endpoint: self.druid_endpoint.clone(),
            druid_port: self.druid_port,
        }
    }
}

impl Default for CathbadClientConfig {
    /// The engine on this machine, at its usual port.
    fn default() -> (r: Self)
        ensures
            r.druid_endpoint@ == "http://localhost"@,
            r.druid_port == 8888,
    {
        CathbadClientConfig { druid_endpoint: "http://localhost".to_owned(), druid_port: 8888 }
    }
}

impl Clone for CathbadClientConfig {
    fn clone(&self) -> (r: Self)
        ensures
            r.druid_endpoint@ == self.druid_endpoint@,
            r.druid_port == self.druid_port,
    {
        self.duplicate()
    }
}

} // verus!
