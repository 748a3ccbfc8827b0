//! Errors of the configuration layer.
use vstd::prelude::*;

use crate::text::{concat2, concat3, owned};

verus! {

/// An environment variable holds a value that the configuration cannot override.
#[derive(Debug)]
pub enum ReadOnlyEnvVarError {
    Variable(String),
}

impl ReadOnlyEnvVarError {
    /// The message of the error: "read-only value in: VAR".
    pub fn to_string(&self) -> (r: String)
        ensures
            r@ == "read-only value in: "@ + self.var_name(),
    {
        match self {
            ReadOnlyEnvVarError::Variable(v) => concat2("read-only value in: ", v.as_str()),
        }
    }

    pub open spec fn var_name(&self) -> Seq<char> {
        match self {
            ReadOnlyEnvVarError::Variable(v) => v@,
        }
    }
}

/// Failures of reading or changing a configuration.
#[derive(Debug)]
pub enum ConfigError {
    /// No entry under the key.
    KeyNotFound(String),
    /// The entry under the key is neither a string nor a boolean.
    NotAString(String),
    /// The entry under the key is not a boolean.
    NotABool(String),
    /// The entry that should hold a table (`hosts`, `aliases`) holds something else.
    NotATable(String),
    /// No host of that name is configured.
    HostNotFound(String),
    /// No host is configured.
    NoHosts,
    /// Several hosts are configured and none is marked as the default.
    NoDefaultHost,
    /// The key is not one of the known configuration options.
    InvalidKey(String),
    /// The value comes from an environment variable.
    ReadOnly(ReadOnlyEnvVarError),
    /// The expansion of an alias cannot be split into words.
    AliasSplit(String),
    /// A configuration file is not valid TOML.
    Parse(toml_edit::TomlError),
}

/// The model of a `ConfigError`.
pub enum ConfigErr {
    KeyNotFound(Seq<char>),
    NotAString(Seq<char>),
    NotABool(Seq<char>),
    NotATable(Seq<char>),
    HostNotFound(Seq<char>),
    NoHosts,
    NoDefaultHost,
    InvalidKey(Seq<char>),
    ReadOnly(Seq<char>),
    AliasSplit(Seq<char>),
    Parse,
}

impl View for ConfigError {
    type V = ConfigErr;

    open spec fn view(&self) -> ConfigErr {
        match self {
            ConfigError::KeyNotFound(k) => ConfigErr::KeyNotFound(k@),
            ConfigError::NotAString(k) => ConfigErr::NotAString(k@),
            ConfigError::NotABool(k) => ConfigErr::NotABool(k@),
            ConfigError::NotATable(k) => ConfigErr::NotATable(k@),
            ConfigError::HostNotFound(h) => ConfigErr::HostNotFound(h@),
            ConfigError::NoHosts => ConfigErr::NoHosts,
            ConfigError::NoDefaultHost => ConfigErr::NoDefaultHost,
            ConfigError::InvalidKey(k) => ConfigErr::InvalidKey(k@),
            ConfigError::ReadOnly(e) => ConfigErr::ReadOnly(e.var_name()),
            ConfigError::AliasSplit(s) => ConfigErr::AliasSplit(s@),
            ConfigError::Parse(_) => ConfigErr::Parse,
        }
    }
}

/// The model of a result that carries a string.
pub open spec fn str_result(r: Result<String, ConfigError>) -> Result<Seq<char>, ConfigErr> {
    match r {
        Ok(s) => Ok(s@),
        Err(e) => Err(e@),
    }
}

/// The model of a result that carries nothing.
pub open spec fn unit_result(r: Result<(), ConfigError>) -> Result<(), ConfigErr> {
    match r {
        Ok(_) => Ok(()),
        Err(e) => Err(e@),
    }
}

/// The message of a TOML parse error, as `toml_edit` formats it.
#[verifier::external_body]
fn toml_error_message(e: &toml_edit::TomlError) -> String {
    format!("{}", e)
}

/// The message of a `ConfigError`, as the command line prints it.
pub open spec fn config_err_message(e: ConfigErr) -> Seq<char> {
    match e {
        ConfigErr::KeyNotFound(k) => "Key '"@ + k + "' not found"@,
        ConfigErr::NotAString(k) => "Key '"@ + k + "' does not hold a string"@,
        ConfigErr::NotABool(k) => "Key '"@ + k + "' does not hold a boolean"@,
        ConfigErr::NotATable(k) => k + " is not a table"@,
        ConfigErr::HostNotFound(h) => "host "@ + h + " not found"@,
        ConfigErr::NoHosts => "No hosts found"@,
        ConfigErr::NoDefaultHost => "No host has been set as default"@,
        ConfigErr::InvalidKey(k) => "invalid key: "@ + k,
        ConfigErr::ReadOnly(v) => "read-only value in: "@ + v,
        ConfigErr::AliasSplit(s) => "cannot split alias expansion into words: "@ + s,
        ConfigErr::Parse => Seq::empty(),
    }
}

impl ConfigError {
    /// The message of the error. A parse error gives `toml_edit`'s own message.
    pub fn to_string(&self) -> (r: String)
        ensures
            !(self@ is Parse) ==> r@ == config_err_message(self@),
    {
        match self {
            ConfigError::KeyNotFound(k) => concat3("Key '", k.as_str(), "' not found"),
            ConfigError::NotAString(k) => concat3("Key '", k.as_str(), "' does not hold a string"),
            ConfigError::NotABool(k) => concat3("Key '", k.as_str(), "' does not hold a boolean"),
            ConfigError::NotATable(k) => concat2(k.as_str(), " is not a table"),
            ConfigError::HostNotFound(h) => concat3("host ", h.as_str(), " not found"),
            ConfigError::NoHosts => owned("No hosts found"),
            ConfigError::NoDefaultHost => owned("No host has been set as default"),
            ConfigError::InvalidKey(k) => concat2("invalid key: ", k.as_str()),
            ConfigError::ReadOnly(e) => e.to_string(),
            ConfigError::AliasSplit(s) => concat2("cannot split alias expansion into words: ", s.as_str()),
            ConfigError::Parse(e) => toml_error_message(e),
        }
    }
}

} // verus!
