//! Where requests go: the base URL, the API key that every request carries,
//! the endpoints, and the retry policy.
use vstd::prelude::*;
use vstd::string::StringExecFns;
use crate::retry::RetryPolicy;

verus! {

/// The name of the header that carries the API key.
pub const API_KEY_HEADER: &'static str = "x-api-key";

/// The endpoint that lists the leagues.
pub const LEAGUES_ENDPOINT: &'static str = "getLeagues";

/// The endpoint that lists the teams with their players.
pub const TEAMS_ENDPOINT: &'static str = "getTeams";

/// The endpoint that lists the tournaments of one league.
pub const TOURNAMENTS_ENDPOINT: &'static str = "getTournamentsForLeague";

/// The configuration of a fetcher, fixed when it is made.
#[derive(Clone, Debug)]
pub struct FetchConfig {
    pub base_url: String,
    pub api_key: String,
    pub policy: RetryPolicy,
}

impl FetchConfig {
    /// A configuration with the standard retry policy.
    pub fn new(base_url: &str, api_key: &str) -> (c: FetchConfig)
        ensures
            c.base_url@ == base_url@,
            c.api_key@ == api_key@,
            c.policy.max_retries == 2,
            c.policy.delay_ms == 5000,
    {
        FetchConfig {
            base_url: String::from_str(base_url),
            api_key: String::from_str(api_key),
            policy: RetryPolicy::standard(),
        }
    }

    /// The address of `endpoint`: the base URL, a slash, then the endpoint.
    pub fn url(&self, endpoint: &str) -> (r: String)
        ensures
            r@ == self.base_url@ + "/"@ + endpoint@,
    {
        String::from_str(self.base_url.as_str()).concat("/").concat(endpoint)
    }
}

} // verus!
