use vstd::prelude::*;
use vstd::string::*;

verus! {

/// Region of the identity provider that the assistant ships with.
pub const REGION: &'static str = "us-east-1";

/// User pool that the assistant ships with.
pub const USER_POOL_ID: &'static str = "us-east-1_DAvkrVxUh";

/// Client identifier that the assistant ships with. It is the audience that
/// every access token must carry.
pub const CLIENT_ID: &'static str = "6tlohqsfgoqiehi7q6027a3rl3";

/// Directory of the assistant under the per-user configuration directory.
pub const CONFIG_DIRECTORY: &'static str = "imp";

/// Name of the credential document in that directory.
pub const TOKENS_FILE: &'static str = "tokens.json";

/// Name of the cached key-set document in that directory.
pub const JWKS_FILE: &'static str = "jwks.json";

/// Where the identity provider lives and who the client is. Every component
/// is handed its configuration; none reads a process-wide value.
#[derive(Debug)]
pub struct Config {
    pub region: String,
    pub user_pool_id: String,
    pub client_id: String,
}

impl Config {
    /// A configuration over the given values.
    pub fn new(region: &str, user_pool_id: &str, client_id: &str) -> (config: Self)
        ensures
            config.region@ == region@,
            config.user_pool_id@ == user_pool_id@,
            config.client_id@ == client_id@,
    {
        Config {
            region: String::from_str(region),
            user_pool_id: String::from_str(user_pool_id),
            client_id: String::from_str(client_id),
        }
    }

    /// The configuration that the assistant ships with.
    pub fn standard() -> (config: Self)
        ensures
            config.region@ == REGION@,
            config.user_pool_id@ == USER_POOL_ID@,
            config.client_id@ == CLIENT_ID@,
    {
        Config::new(REGION, USER_POOL_ID, CLIENT_ID)
    }
}

} // verus!
