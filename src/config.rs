use vstd::prelude::*;

use crate::error::ZKMLError;

verus! {

/// Where the HTTP listener binds.
#[derive(Debug, Clone)]
pub struct ServerConfig {
    pub host: String,
    pub port: u16,
}

/// Credentials for a database; read from the file and kept for later use.
#[derive(Debug, Clone)]
pub struct DatabaseConfig {
    pub user: String,
    pub password: String,
}

/// Filesystem locations: the root under which models live, and the proving
/// tool's binary.
#[derive(Debug, Clone)]
pub struct PublicConfig {
    pub models: String,
    pub binfile: String,
}

/// The runtime settings, immutable once loaded.
#[derive(Debug, Clone)]
pub struct Config {
    pub server: ServerConfig,
    pub database: DatabaseConfig,
    pub public: PublicConfig,
}

/// What reading and decoding the configuration file produced.
#[derive(Debug, Clone)]
pub enum ConfigSource {
    /// No file exists at the path.
    Missing,
    /// The file exists but could not be read; holds the reason.
    Unreadable(String),
    /// The text was read but does not decode into a configuration; holds the
    /// decoder's message.
    Malformed(String),
    /// The text decoded into a configuration.
    Decoded(Config),
}

/// The outcome of a load from `path`, given what the file produced.
pub open spec fn load_outcome(path: String, source: ConfigSource) -> Result<Config, ZKMLError> {
    match source {
        ConfigSource::Missing => Err(ZKMLError::ConfigMissing(path)),
        ConfigSource::Unreadable(reason) => Err(ZKMLError::IoError(reason)),
        ConfigSource::Malformed(message) => Err(ZKMLError::SerializationError(message)),
        ConfigSource::Decoded(config) => Ok(config),
    }
}

impl Config {
    /// Classifies the outcome of loading the configuration at `path`: a
    /// missing file is `ConfigMissing`, unreadable text an `IoError`, text that
    /// does not decode a `SerializationError`.
    pub fn load_config(path: String, source: ConfigSource) -> (r: Result<Config, ZKMLError>)
        ensures
            r == load_outcome(path, source),
    {
        match source {
            ConfigSource::Missing => Err(ZKMLError::ConfigMissing(path)),
            ConfigSource::Unreadable(reason) => Err(ZKMLError::IoError(reason)),
            ConfigSource::Malformed(message) => Err(ZKMLError::SerializationError(message)),
            ConfigSource::Decoded(config) => Ok(config),
        }
    }
}

/// Loading from a path that does not exist fails with `ConfigMissing` naming
/// that path, and loading a document that does not decode fails with
/// `SerializationError`.
pub proof fn load_failures_are_classified(path: String, message: String)
    ensures
        load_outcome(path, ConfigSource::Missing) matches Err(e) && e
            == ZKMLError::ConfigMissing(path),
        load_outcome(path, ConfigSource::Malformed(message)) matches Err(e) && e
            is SerializationError && e.detail() == message@,
        load_outcome(path, ConfigSource::Missing) matches Err(e) && e.spec_error_code() == 1001,
        load_outcome(path, ConfigSource::Malformed(message)) matches Err(e)
            && e.spec_error_code() == 1002,
{
}

} // verus!
