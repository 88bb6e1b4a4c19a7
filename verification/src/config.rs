//! Run settings and the API key.

use vstd::prelude::*;

verus! {

/// The credentials the agent runs with.
#[derive(Debug)]
pub struct Config {
    pub xai_api_key: String,
}

/// No API key was set.
#[derive(Debug, Clone, Copy, PartialEq, Eq, Structural)]
pub enum ConfigError {
    MissingApiKey,
}

impl Config {
    /// Picks the API key from the two variables that may hold it: the
    /// lower-case name first, then the upper-case one.
    pub fn from_vars(lower: Option<String>, upper: Option<String>) -> (r: Result<Config, ConfigError>)
        ensures
            match lower {
                Some(k) => r matches Ok(c) && c.xai_api_key == k,
                None => match upper {
                    Some(k) => r matches Ok(c) && c.xai_api_key == k,
                    None => r == Err::<Config, ConfigError>(ConfigError::MissingApiKey),
                },
            },
    {
        match lower {
            Some(k) => Ok(Config { xai_api_key: k }),
            None => match upper {
                Some(k) => Ok(Config { xai_api_key: k }),
                None => Err(ConfigError::MissingApiKey),
            },
        }
    }
}

/// Settings for one run: the policy and spec files and an iteration cap.
#[derive(Clone, Debug)]
pub struct CoreConfig {
    pub policy_file: Option<String>,
    pub spec_file: Option<String>,
    pub max_iter: Option<u32>,
}

impl Default for CoreConfig {
    fn default() -> (r: Self)
        ensures
            r.policy_file is None,
            r.spec_file is None,
            r.max_iter is None,
    {
        CoreConfig { policy_file: None, spec_file: None, max_iter: None }
    }
}

} // verus!
