//! Start-up configuration, built once and passed by reference.

use vstd::prelude::*;

verus! {

/// Settings read from the environment at start-up.
#[derive(Clone, Debug)]
pub struct Config {
    /// Port (or address) the server listens on.
    pub port: String,
    pub solana_rpc_url: String,
    /// Path of the ledger keypair file; may begin with `~`.
    pub solana_keypair: String,
    pub log_level: String,
}

/// The listening address used when none is configured.
pub fn default_server_addr() -> (r: String)
    ensures
        r@ == "127.0.0.1:8080"@,
{
    String::from_str("127.0.0.1:8080")
}

/// The log level used when none is configured.
pub fn default_log_level() -> (r: String)
    ensures
        r@ == "info"@,
{
    String::from_str("info")
}

/// The address the server binds: every interface, on the configured port.
pub fn bind_address(port: &str) -> (r: String)
    ensures
        r@ == "0.0.0.0:"@ + port@,
{
    let mut r = String::from_str("0.0.0.0:");
    r.append(port);
    r
}

} // verus!
