//! The binding from a logical sandbox context to the node it talks to.
//!
//! The binding is an explicit value that each caller threads through its
//! calls, so two sandboxes in one process never redirect each other.
use vstd::prelude::*;
use crate::text::{decimal, join_path, path_join, push_decimal};

verus! {

/// The RPC port a fresh context is bound to.
pub const DEFAULT_SANDBOX_PORT: u16 = 3030;

/// The address of the node's RPC service on a given port.
pub open spec fn rpc_url_of(port: u16) -> Seq<char> {
    "http://localhost:"@ + decimal(port as nat)
}

/// The name of the node's working directory for a given port.
pub open spec fn home_dir_name_of(port: u16) -> Seq<char> {
    "sandbox-"@ + decimal(port as nat)
}

/// The node's working directory under the temporary directory `temp_dir`.
pub open spec fn home_dir_of(temp_dir: Seq<char>, port: u16) -> Seq<char> {
    path_join(temp_dir, home_dir_name_of(port))
}

/// Where the node keeps its bootstrap validator key.
pub open spec fn validator_key_path_of(temp_dir: Seq<char>, port: u16) -> Seq<char> {
    path_join(home_dir_of(temp_dir, port), "validator_key.json"@)
}

/// One running sandbox, identified by its RPC port.
#[derive(Clone, Copy, Debug, PartialEq, Eq)]
pub struct SandboxEndpoint {
    pub port: u16,
}

impl SandboxEndpoint {
    /// A context bound to the default port.
    pub fn new() -> (r: SandboxEndpoint)
        ensures
            r.port == DEFAULT_SANDBOX_PORT,
    {
        SandboxEndpoint { port: DEFAULT_SANDBOX_PORT }
    }

    /// A context bound to `port`.
    pub fn with_port(port: u16) -> (r: SandboxEndpoint)
        ensures
            r.port == port,
    {
        SandboxEndpoint { port }
    }

    pub fn port(&self) -> (r: u16)
        ensures
            r == self.port,
    {
        self.port
    }

    /// Rebinds this context to the sandbox listening on `port`.
    pub fn set_active_port(&mut self, port: u16)
        ensures
            final(self).port == port,
    {
        self.port = port;
    }

    /// The RPC address that a client for this context connects to.
    pub fn rpc_url(&self) -> (r: String)
        ensures
            r@ == rpc_url_of(self.port),
    {
        let mut url = String::from_str("http://localhost:");
        push_decimal(&mut url, self.port as u64);
        url
    }

    /// The name of this sandbox's working directory.
    pub fn home_dir_name(&self) -> (r: String)
        ensures
            r@ == home_dir_name_of(self.port),
    {
        let mut name = String::from_str("sandbox-");
        push_decimal(&mut name, self.port as u64);
        name
    }

    /// This sandbox's working directory, given the system's temporary directory.
    pub fn home_dir(&self, temp_dir: &str) -> (r: String)
        ensures
            r@ == home_dir_of(temp_dir@, self.port),
    {
        let name = self.home_dir_name();
        join_path(temp_dir, name.as_str())
    }

    /// The bootstrap validator key file of this sandbox.
    pub fn validator_key_path(&self, temp_dir: &str) -> (r: String)
        ensures
            r@ == validator_key_path_of(temp_dir@, self.port),
    {
        let home = self.home_dir(temp_dir);
        join_path(home.as_str(), "validator_key.json")
    }
}

/// Distinct ports give distinct RPC addresses.
pub proof fn lemma_rpc_url_injective(a: u16, b: u16)
    ensures
        rpc_url_of(a) == rpc_url_of(b) <==> a == b,
{
    if rpc_url_of(a) == rpc_url_of(b) {
        let p = "http://localhost:"@;
        let n = p.len() as int;
        assert(rpc_url_of(a).subrange(n, rpc_url_of(a).len() as int) =~= decimal(a as nat));
        assert(rpc_url_of(b).subrange(n, rpc_url_of(b).len() as int) =~= decimal(b as nat));
        crate::text::lemma_decimal_injective(a as nat, b as nat);
    }
}

/// After a context is rebound to `port`, the clients it hands out reach
/// `port`; an address taken before the rebind still reaches the old port,
/// and differs from the new one whenever the ports differ.
pub proof fn law_rebind_redirects(before: SandboxEndpoint, after: SandboxEndpoint, port: u16)
    requires
        after.port == port,
    ensures
        rpc_url_of(after.port) == rpc_url_of(port),
        before.port != port ==> rpc_url_of(before.port) != rpc_url_of(after.port),
{
    lemma_rpc_url_injective(before.port, port);
}

} // verus!
