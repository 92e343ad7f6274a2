//! Process configuration and its validation.
use vstd::prelude::*;
use crate::text::{is_prefix_of, starts_with};
use crate::tokens::{parse_spec, TokenRegistry};

verus! {

/// Why a configuration was refused.
#[derive(Debug, Clone, Copy, PartialEq, Eq)]
pub enum ConfigError {
    /// A required value is missing; the payload names it.
    MissingField(&'static str),
    /// A value is present but unusable; the payload says why.
    Invalid(&'static str),
}

/// A configuration that can check itself before use.
pub trait ConfigValidator {
    /// The outcome validation gives.
    spec fn validation(&self) -> Result<(), ConfigError>;

    /// Checks the configuration.
    fn validate(&self) -> (r: Result<(), ConfigError>)
        ensures
            r == self.validation(),
    ;
}

/// Settings of the HTTP server.
#[derive(Debug, Clone)]
pub struct ServerConfig {
    /// The port to listen on.
    pub port: u16,
    /// The access tokens: comma-separated `name:secret` or bare `secret`
    /// entries.
    pub service_access_token: String,
    /// Whether debug logging is on.
    pub debug: bool,
}

/// The message for a token list with an empty secret.
pub const EMPTY_SECRET_MSG: &'static str = "every access token needs a non-empty secret";

impl ServerConfig {
    /// The token registry the access tokens describe.
    pub fn token_registry(&self) -> (r: Result<TokenRegistry, ConfigError>)
        ensures
            match parse_spec(self.service_access_token@) {
                Some(entries) => r is Ok && r->Ok_0.view() == entries,
                None => r == Err::<TokenRegistry, ConfigError>(ConfigError::Invalid(EMPTY_SECRET_MSG)),
            },
    {
        match TokenRegistry::parse(self.service_access_token.as_str()) {
            Ok(reg) => Ok(reg),
            Err(_) => Err(ConfigError::Invalid(EMPTY_SECRET_MSG)),
        }
    }
}

impl ConfigValidator for ServerConfig {
    /// No tokens, port zero, or a token list with an empty secret are
    /// refused, in that order.
    open spec fn validation(&self) -> Result<(), ConfigError> {
        if self.service_access_token@.len() == 0 {
            Err(ConfigError::MissingField("service access token"))
        } else if self.port == 0 {
            Err(ConfigError::Invalid("port must be greater than 0"))
        } else if parse_spec(self.service_access_token@) is None {
            Err(ConfigError::Invalid(EMPTY_SECRET_MSG))
        } else {
            Ok(())
        }
    }

    fn validate(&self) -> (r: Result<(), ConfigError>) {
        if self.service_access_token.as_str().is_empty() {
            return Err(ConfigError::MissingField("service access token"));
        }
        if self.port == 0 {
            return Err(ConfigError::Invalid("port must be greater than 0"));
        }
        match self.token_registry() {
            Ok(_) => Ok(()),
            Err(e) => Err(e),
        }
    }
}

/// Connection settings of the object-store backend.
#[derive(Debug, Clone)]
pub struct AwsStorageConfig {
    /// The region; when absent the default provider chain is asked.
    pub region: Option<String>,
    /// An explicit access key id, paired with `secret_access_key`.
    pub access_key_id: Option<String>,
    /// An explicit secret key, paired with `access_key_id`.
    pub secret_access_key: Option<String>,
    /// An optional session token for temporary credentials.
    pub session_token: Option<String>,
    /// The bucket that holds the artifacts.
    pub bucket_name: String,
    /// A custom endpoint, for stores other than the default one.
    pub endpoint_url: Option<String>,
    /// The deadline of each backend operation, in seconds.
    pub timeout_seconds: u64,
}

/// The message for an endpoint without an HTTP scheme.
pub const ENDPOINT_MSG: &'static str = "S3 endpoint URL must start with http:// or https://";

/// An endpoint URL the backend can use: it names its HTTP scheme.
pub open spec fn http_url(u: Seq<char>) -> bool {
    is_prefix_of("http://"@, u) || is_prefix_of("https://"@, u)
}

impl AwsStorageConfig {
    /// Whether explicit keys are configured; otherwise the default
    /// credential chain supplies them.
    pub fn uses_static_credentials(&self) -> (r: bool)
        ensures
            r == (self.access_key_id is Some && self.secret_access_key is Some),
    {
        self.access_key_id.is_some() && self.secret_access_key.is_some()
    }

    /// The full check once the region has been resolved: the static checks
    /// first, then a missing region.
    pub fn validate_with_region(&self, region_found: bool) -> (r: Result<(), ConfigError>)
        ensures
            r == (if self.validation() is Err {
                self.validation()
            } else if !region_found {
                Err(ConfigError::MissingField("AWS_REGION"))
            } else {
                Ok(())
            }),
    {
        self.validate()?;
        if !region_found {
            return Err(ConfigError::MissingField("AWS_REGION"));
        }
        Ok(())
    }
}

impl ConfigValidator for AwsStorageConfig {
    /// A bucket is required, an endpoint must name its HTTP scheme, and the
    /// access key and its secret come together or not at all.
    open spec fn validation(&self) -> Result<(), ConfigError> {
        if self.bucket_name@.len() == 0 {
            Err(ConfigError::MissingField("S3 bucket name"))
        } else if self.endpoint_url is Some && !http_url(self.endpoint_url->Some_0@) {
            Err(ConfigError::Invalid(ENDPOINT_MSG))
        } else if self.access_key_id is Some && self.secret_access_key is None {
            Err(ConfigError::MissingField("AWS_SECRET_ACCESS_KEY"))
        } else if self.access_key_id is None && self.secret_access_key is Some {
            Err(ConfigError::MissingField("AWS_ACCESS_KEY_ID"))
        } else {
            Ok(())
        }
    }

    fn validate(&self) -> (r: Result<(), ConfigError>) {
        if self.bucket_name.as_str().is_empty() {
            return Err(ConfigError::MissingField("S3 bucket name"));
        }
        if let Some(url) = &self.endpoint_url {
            if !starts_with(url.as_str(), "http://") && !starts_with(url.as_str(), "https://") {
                return Err(ConfigError::Invalid(ENDPOINT_MSG));
            }
        }
        match (&self.access_key_id, &self.secret_access_key) {
            (Some(_), None) => Err(ConfigError::MissingField("AWS_SECRET_ACCESS_KEY")),
            (None, Some(_)) => Err(ConfigError::MissingField("AWS_ACCESS_KEY_ID")),
            _ => Ok(()),
        }
    }
}

} // verus!
