//! Application configuration handed in at startup.

use vstd::prelude::*;

verus! {

/// Settings the process is started with: the externally visible base URL of
/// this service and the OAuth2 client credentials issued by the provider.
#[derive(Clone)]
pub struct Config {
    pub base_url: String,
    pub github_app_client_id: String,
    pub github_app_client_secret: String,
}

impl Config {
    /// Builds a configuration from its three settings.
    pub fn new(base_url: String, github_app_client_id: String, github_app_client_secret: String) -> (r: Config)
        ensures
            r.base_url@ == base_url@,
            r.github_app_client_id@ == github_app_client_id@,
            r.github_app_client_secret@ == github_app_client_secret@,
    {
        Config { base_url, github_app_client_id, github_app_client_secret }
    }
}

} // verus!
