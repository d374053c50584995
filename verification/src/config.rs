//! Client configuration.
//!
//! A [`Config`] is an immutable value created once at client construction and
//! read by every request: credential, base URL, per-attempt timeout, retry
//! budget, base backoff delay and user agent. The credential must be
//! non-empty; an empty one is rejected at construction, never later.
//! Durations are plain integers in milliseconds.

use vstd::prelude::*;

use crate::error::Error;

verus! {

/// The default user-agent string.
pub open spec fn spec_default_user_agent() -> Seq<char> {
    "payrex-rust/0.1.0"@
}

/// The default per-attempt timeout, in milliseconds.
pub const DEFAULT_TIMEOUT_MS: u64 = 30000;

/// The default maximum number of retries after the first attempt.
pub const DEFAULT_MAX_RETRIES: u32 = 3;

/// The default base backoff delay, in milliseconds.
pub const DEFAULT_RETRY_DELAY_MS: u64 = 500;

/// Immutable configuration shared read-only by every request.
#[derive(Debug, Clone)]
pub struct Config {
    pub api_key: String,
    pub api_base_url: String,
    pub timeout_ms: u64,
    pub max_retries: u32,
    pub retry_delay_ms: u64,
    pub user_agent: String,
    pub test_mode: bool,
}

/// A configuration is well formed when its credential is non-empty.
pub open spec fn config_wf(c: Config) -> bool {
    c.api_key@.len() > 0
}

impl Config {
    /// A configuration with the default settings for the given credential.
    /// Rejects an empty credential.
    pub fn new(api_key: &str) -> (r: Result<Config, Error>)
        ensures
            api_key@.len() > 0 ==> (match r {
                Ok(c) => {
                    &&& c.api_key@ == api_key@
                    &&& c.api_base_url@ == crate::API_BASE_URL@
                    &&& c.timeout_ms == DEFAULT_TIMEOUT_MS
                    &&& c.max_retries == DEFAULT_MAX_RETRIES
                    &&& c.retry_delay_ms == DEFAULT_RETRY_DELAY_MS
                    &&& c.user_agent@ == spec_default_user_agent()
                    &&& !c.test_mode
                    &&& config_wf(c)
                },
                Err(_) => false,
            }),
            api_key@.len() == 0 ==> (match r {
                Ok(_) => false,
                Err(e) => e matches Error::InvalidApiKey(m) && m@ == "API key cannot be empty"@,
            }),
    {
        if api_key.is_empty() {
            return Err(Error::InvalidApiKey(String::from_str("API key cannot be empty")));
        }
        Ok(
            Config {
                api_key: api_key.to_owned(),
                api_base_url: String::from_str(crate::API_BASE_URL),
                timeout_ms: DEFAULT_TIMEOUT_MS,
                max_retries: DEFAULT_MAX_RETRIES,
                retry_delay_ms: DEFAULT_RETRY_DELAY_MS,
                user_agent: String::from_str("payrex-rust/0.1.0"),
                test_mode: false,
            },
        )
    }

    /// A builder with no settings chosen yet.
    pub fn builder() -> (r: ConfigBuilder)
        ensures
            r == ConfigBuilder::spec_empty(),
    {
        ConfigBuilder::new()
    }

    pub fn api_key(&self) -> (r: &str)
        ensures
            r@ == self.api_key@,
    {
        self.api_key.as_str()
    }

    pub fn api_base_url(&self) -> (r: &str)
        ensures
            r@ == self.api_base_url@,
    {
        self.api_base_url.as_str()
    }

    /// The per-attempt timeout, in milliseconds.
    pub fn timeout(&self) -> (r: u64)
        ensures
            r == self.timeout_ms,
    {
        self.timeout_ms
    }

    pub fn max_retries(&self) -> (r: u32)
        ensures
            r == self.max_retries,
    {
        self.max_retries
    }

    /// The base backoff delay, in milliseconds.
    pub fn retry_delay(&self) -> (r: u64)
        ensures
            r == self.retry_delay_ms,
    {
        self.retry_delay_ms
    }

    pub fn user_agent(&self) -> (r: &str)
        ensures
            r@ == self.user_agent@,
    {
        self.user_agent.as_str()
    }

    pub fn is_test_mode(&self) -> (r: bool)
        ensures
            r == self.test_mode,
    {
        self.test_mode
    }
}

/// Fluent builder for [`Config`]; unset fields fall back to the defaults.
#[derive(Debug)]
pub struct ConfigBuilder {
    pub api_key: Option<String>,
    pub api_base_url: Option<String>,
    pub timeout_ms: Option<u64>,
    pub max_retries: Option<u32>,
    pub retry_delay_ms: Option<u64>,
    pub user_agent: Option<String>,
    pub test_mode: bool,
}

impl ConfigBuilder {
    /// The builder with nothing chosen.
    pub open spec fn spec_empty() -> ConfigBuilder {
        ConfigBuilder {
            api_key: None,
            api_base_url: None,
            timeout_ms: None,
            max_retries: None,
            retry_delay_ms: None,
            user_agent: None,
            test_mode: false,
        }
    }

    pub fn new() -> (r: Self)
        ensures
            r == Self::spec_empty(),
    {
        ConfigBuilder {
            api_key: None,
            api_base_url: None,
            timeout_ms: None,
            max_retries: None,
            retry_delay_ms: None,
            user_agent: None,
            test_mode: false,
        }
    }

    pub fn api_key(self, api_key: &str) -> (r: Self)
        ensures
            r.api_key matches Some(k) && k@ == api_key@,
            r == (ConfigBuilder { api_key: r.api_key, ..self }),
    {
        ConfigBuilder { api_key: Some(api_key.to_owned()), ..self }
    }

    pub fn api_base_url(self, url: &str) -> (r: Self)
        ensures
            r.api_base_url matches Some(u) && u@ == url@,
            r == (ConfigBuilder { api_base_url: r.api_base_url, ..self }),
    {
        ConfigBuilder { api_base_url: Some(url.to_owned()), ..self }
    }

    /// Sets the per-attempt timeout, in milliseconds.
    pub fn timeout(self, timeout_ms: u64) -> (r: Self)
        ensures
            r == (ConfigBuilder { timeout_ms: Some(timeout_ms), ..self }),
    {
        ConfigBuilder { timeout_ms: Some(timeout_ms), ..self }
    }

    pub fn max_retries(self, max_retries: u32) -> (r: Self)
        ensures
            r == (ConfigBuilder { max_retries: Some(max_retries), ..self }),
    {
        ConfigBuilder { max_retries: Some(max_retries), ..self }
    }

    /// Sets the base backoff delay, in milliseconds.
    pub fn retry_delay(self, delay_ms: u64) -> (r: Self)
        ensures
            r == (ConfigBuilder { retry_delay_ms: Some(delay_ms), ..self }),
    {
        ConfigBuilder { retry_delay_ms: Some(delay_ms), ..self }
    }

    pub fn user_agent(self, user_agent: &str) -> (r: Self)
        ensures
            r.user_agent matches Some(u) && u@ == user_agent@,
            r == (ConfigBuilder { user_agent: r.user_agent, ..self }),
    {
        ConfigBuilder { user_agent: Some(user_agent.to_owned()), ..self }
    }

    pub fn test_mode(self, enabled: bool) -> (r: Self)
        ensures
            r == (ConfigBuilder { test_mode: enabled, ..self }),
    {
        ConfigBuilder { test_mode: enabled, ..self }
    }

    /// Finishes the configuration. Fails when no credential was chosen, or
    /// when the chosen credential is empty; every other field falls back to
    /// its default.
    pub fn build(self) -> (r: Result<Config, Error>)
        ensures
            (match self.api_key {
                None => (match r {
                    Ok(_) => false,
                    Err(e) => e matches Error::Config(m) && m@ == "API key is required"@,
                }),
                Some(key) => {
                    if key@.len() == 0 {
                        match r {
                            Ok(_) => false,
                            Err(e) => e matches Error::InvalidApiKey(m) && m@
                                == "API key cannot be empty"@,
                        }
                    } else {
                        match r {
                            Ok(c) => {
                                &&& c.api_key == key
                                &&& c.api_base_url@ == (match self.api_base_url {
                                    Some(u) => u@,
                                    None => crate::API_BASE_URL@,
                                })
                                &&& c.timeout_ms == (match self.timeout_ms {
                                    Some(t) => t,
                                    None => DEFAULT_TIMEOUT_MS,
                                })
                                &&& c.max_retries == (match self.max_retries {
                                    Some(m) => m,
                                    None => DEFAULT_MAX_RETRIES,
                                })
                                &&& c.retry_delay_ms == (match self.retry_delay_ms {
                                    Some(d) => d,
                                    None => DEFAULT_RETRY_DELAY_MS,
                                })
                                &&& c.user_agent@ == (match self.user_agent {
                                    Some(u) => u@,
                                    None => spec_default_user_agent(),
                                })
                                &&& c.test_mode == self.test_mode
                                &&& config_wf(c)
                            },
                            Err(_) => false,
                        }
                    }
                },
            }),
    {
        let api_key = match self.api_key {
            Some(key) => key,
            None => {
                return Err(Error::Config(String::from_str("API key is required")));
            },
        };
        if api_key.as_str().is_empty() {
            return Err(Error::InvalidApiKey(String::from_str("API key cannot be empty")));
        }
        let api_base_url = match self.api_base_url {
            Some(u) => u,
            None => String::from_str(crate::API_BASE_URL),
        };
        let timeout_ms = match self.timeout_ms {
            Some(t) => t,
            None => DEFAULT_TIMEOUT_MS,
        };
        let max_retries = match self.max_retries {
            Some(m) => m,
            None => DEFAULT_MAX_RETRIES,
        };
        let retry_delay_ms = match self.retry_delay_ms {
            Some(d) => d,
            None => DEFAULT_RETRY_DELAY_MS,
        };
        let user_agent = match self.user_agent {
            Some(u) => u,
            None => String::from_str("payrex-rust/0.1.0"),
        };
        Ok(
            Config {
                api_key,
                api_base_url,
                timeout_ms,
                max_retries,
                retry_delay_ms,
                user_agent,
                test_mode: self.test_mode,
            },
        )
    }
}

impl Default for ConfigBuilder {
    /// The builder with nothing chosen.
    fn default() -> (r: Self)
        ensures
            r == Self::spec_empty(),
    {
        ConfigBuilder::new()
    }
}

} // verus!
