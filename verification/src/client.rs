use vstd::prelude::*;
use vstd::string::*;
use crate::auth::{spec_credential, Authorization};

verus! {

/// The startup configuration: the appliance's base URL and the Basic
/// authentication pair. Loaded once at process start, immutable after.
#[derive(Debug)]
pub struct Config {
    pub url: String,
    pub username: String,
    pub password: String,
}

/// The RPC client's long-lived state: the configuration and the
/// credential derived from it once, both read-only for the process
/// lifetime. The transport itself lives with the caller.
#[derive(Debug)]
pub struct RpcClient {
    pub config: Config,
    pub auth: Authorization,
}

impl RpcClient {
    /// Builds the client, deriving the credential from the configured
    /// username and password.
    pub fn new(config: Config) -> (r: RpcClient)
        ensures
            r.auth@ == spec_credential(config.username@, config.password@),
            r.config == config,
    {
        let auth = Authorization::new(config.username.as_str(), config.password.as_str());
        RpcClient { config, auth }
    }

    /// The full RPC endpoint: the configured base URL with the fixed
    /// path suffix appended.
    pub fn endpoint_url(&self) -> (r: String)
        ensures
            r@ == self.config.url@ + "/jsonrpc"@,
    {
        let mut url = String::from_str(self.config.url.as_str());
        url.append("/jsonrpc");
        url
    }
}

} // verus!
