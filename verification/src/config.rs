//! The run configuration and the token-resolution rule.
//!
//! Resolving the sync directory against the process's working directory and
//! reading the environment happen in the surrounding application; what is
//! decided here is which token a run uses, and that an empty or missing
//! token never passes.

use vstd::prelude::*;
use crate::errors::SyncError;

verus! {

/// One run's settings: where to sync, with which token, and the two flags.
pub struct Config {
    pub sync_dir: String,
    pub github_token: String,
    pub include_private: bool,
    pub force: bool,
}

/// The token a run uses: an explicitly supplied one wins; otherwise the one
/// found in the environment, if any.
pub open spec fn spec_effective_token(token: Option<String>, env_token: Option<String>) -> Option<
    String,
> {
    match token {
        Some(t) => Some(t),
        None => env_token,
    }
}

impl Config {
    /// Build a run configuration. The explicit token falls back to the
    /// environment's; a missing or empty effective token is refused with
    /// `AuthError`.
    pub fn new(
        sync_dir: String,
        token: Option<String>,
        env_token: Option<String>,
        include_private: bool,
        force: bool,
    ) -> (r: Result<Config, SyncError>)
        ensures
            r is Ok <==> (spec_effective_token(token, env_token) matches Some(t) && t@.len() > 0),
            r matches Ok(c) ==> {
                &&& spec_effective_token(token, env_token) == Some(c.github_token)
                &&& c.sync_dir == sync_dir
                &&& c.include_private == include_private
                &&& c.force == force
            },
            r matches Err(e) ==> e == SyncError::AuthError,
    {
        let github_token = match token {
            Some(t) => t,
            None => match env_token {
                Some(e) => e,
                None => {
                    return Err(SyncError::AuthError);
                },
            },
        };
        if github_token.as_str().is_empty() {
            return Err(SyncError::AuthError);
        }
        Ok(Config { sync_dir, github_token, include_private, force })
    }
}

} // verus!
