//! What the DNS manager of an interface remembers.

use vstd::prelude::*;

verus! {

/// The DNS settings of one interface: the interface, and the servers and
/// search domains it had before the tunnel's were set, once recorded.
#[derive(Debug, Clone)]
pub struct DNSManager {
    pub interface: String,
    pub original_dns: Option<String>,
    pub original_search: Option<String>,
}

impl DNSManager {
    /// A manager bound to no interface; setting DNS through it does nothing.
    pub fn new() -> (r: DNSManager)
        ensures
            r.interface@.len() == 0,
            r.original_dns is None,
            r.original_search is None,
    {
        DNSManager { interface: String::new(), original_dns: None, original_search: None }
    }

    /// A manager for `interface` that has recorded nothing yet.
    pub fn with_interface(interface: String) -> (r: DNSManager)
        ensures
            r.interface == interface,
            r.original_dns is None,
            r.original_search is None,
    {
        DNSManager { interface, original_dns: None, original_search: None }
    }

    /// Whether setting or restoring DNS has anything to do: an interface is
    /// named and there are servers to set.
    pub fn should_set(&self, server_count: usize) -> (r: bool)
        ensures
            r == (self.interface@.len() > 0 && server_count > 0),
    {
        self.interface.unicode_len() > 0 && server_count > 0
    }
}

} // verus!
