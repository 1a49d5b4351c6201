//! The user's preferences and their TOML form.
//!
//! The preferences are one boolean, `auto_connect`, kept in a TOML file.  The
//! caller reads and writes the file; this module decides what a file's text
//! means and produces the text to write back.

use vstd::prelude::*;

verus! {

/// The key under which the preference is stored.
pub const AUTO_CONNECT_KEY: &'static str = "auto_connect";

/// What a text holds under one key when it is read as a TOML document.
#[derive(Debug, Clone, Copy, PartialEq, Eq)]
pub enum Lookup {
    /// The text is not a TOML document.
    Invalid,
    /// The document has no such key.
    Missing,
    /// The key holds a value that is not a boolean.
    NotBoolean,
    /// The key holds this boolean.
    Boolean(bool),
}

/// Why a configuration could not be taken from a file.
#[derive(Debug, Clone, Copy, PartialEq, Eq)]
pub enum ConfigError {
    /// The file could not be read.
    Unreadable,
    /// The file's text is not a TOML document.
    Malformed,
    /// The document lacks the `auto_connect` key.
    MissingField,
    /// `auto_connect` is present but not a boolean.
    WrongType,
}

/// The error with which the TOML parser turns a text down.  Nothing is
/// known of what it holds.
#[verifier::external_type_specification]
#[verifier::external_body]
pub struct ExDeError(toml::de::Error);

/// The error with which the TOML encoder turns a value down.  Nothing is
/// known of what it holds.
#[verifier::external_type_specification]
#[verifier::external_body]
pub struct ExSerError(toml::ser::Error);

/// What the TOML parser makes of `content` under `key`.
pub uninterp spec fn toml_lookup(content: Seq<char>, key: Seq<char>) -> Lookup;

/// The TOML document that the encoder writes for a table with the single
/// entry `key = value`, or `None` where it refuses.
pub uninterp spec fn toml_text(key: Seq<char>, value: bool) -> Option<Seq<char>>;

/// The parser's answer as a `Lookup`.
spec fn lookup_of(parsed: Result<Option<Option<bool>>, toml::de::Error>) -> Lookup {
    match parsed {
        Err(_) => Lookup::Invalid,
        Ok(None) => Lookup::Missing,
        Ok(Some(None)) => Lookup::NotBoolean,
        Ok(Some(Some(b))) => Lookup::Boolean(b),
    }
}

/// The encoder's answer as an optional text.
spec fn text_of(written: Result<String, toml::ser::Error>) -> Option<Seq<char>> {
    match written {
        Ok(text) => Some(text@),
        Err(_) => None,
    }
}

/// Parses `content` with `toml::from_str` into a `toml::Table`, looks `key`
/// up with `Map::get` and asks `Value::as_bool` for the boolean.  The contract
/// gives the outcome a name and claims only that it depends on the two
/// texts alone.
#[verifier::external_body]
fn parse_flag(content: &str, key: &str) -> (r: Result<Option<Option<bool>>, toml::de::Error>)
    ensures
        lookup_of(r) == toml_lookup(content@, key@),
{
    let table = toml::from_str::<toml::Table>(content)?;
    Ok(table.get(key).map(toml::Value::as_bool))
}

/// Builds a `toml::Table` with the single entry `key = value` and encodes it
/// with `toml::to_string`.  The contract gives the outcome a name and claims
/// only that it depends on the key and the value alone.
#[verifier::external_body]
fn write_flag(key: &str, value: bool) -> (r: Result<String, toml::ser::Error>)
    ensures
        text_of(r) == toml_text(key@, value),
{
    let mut table = toml::Table::new();
    table.insert(key.to_string(), toml::Value::Boolean(value));
    toml::to_string(&table)
}

/// The preferences together with the path of the file they belong to.
#[derive(Debug)]
pub struct AppConfig {
    pub file_path: String,
    pub auto_connect: bool,
}

impl AppConfig {
    /// The configuration that a lookup of `auto_connect` stands for.
    pub open spec fn decoded(lookup: Lookup) -> Result<bool, ConfigError> {
        match lookup {
            Lookup::Invalid => Err(ConfigError::Malformed),
            Lookup::Missing => Err(ConfigError::MissingField),
            Lookup::NotBoolean => Err(ConfigError::WrongType),
            Lookup::Boolean(b) => Ok(b),
        }
    }

    /// What reading a file with this content stands for; `None` is a file
    /// that could not be read.
    pub open spec fn meaning(content: Option<String>) -> Result<bool, ConfigError> {
        match content {
            None => Err(ConfigError::Unreadable),
            Some(text) => Self::decoded(toml_lookup(text@, AUTO_CONNECT_KEY@)),
        }
    }

    /// The configuration for `path` that a lookup of `auto_connect` gives:
    /// the boolean where there is one, else the reason why there is none.
    pub fn from_lookup(path: String, lookup: Lookup) -> (r: Result<Self, ConfigError>)
        ensures
            match r {
                Ok(config) => Self::decoded(lookup) == Ok::<bool, ConfigError>(
                    config.auto_connect,
                ) && config.file_path == path,
                Err(e) => Self::decoded(lookup) == Err::<bool, ConfigError>(e),
            },
    {
        match lookup {
            Lookup::Invalid => Err(ConfigError::Malformed),
            Lookup::Missing => Err(ConfigError::MissingField),
            Lookup::NotBoolean => Err(ConfigError::WrongType),
            Lookup::Boolean(b) => Ok(AppConfig { file_path: path, auto_connect: b }),
        }
    }

    /// The configuration held by the file at `path`, whose text is `content`
    /// (`None` where the file could not be read).
    pub fn parse(path: String, content: Option<String>) -> (r: Result<Self, ConfigError>)
        ensures
            match r {
                Ok(config) => Self::meaning(content) == Ok::<bool, ConfigError>(
                    config.auto_connect,
                ) && config.file_path == path,
                Err(e) => Self::meaning(content) == Err::<bool, ConfigError>(e),
            },
    {
        match content {
            None => Err(ConfigError::Unreadable),
            Some(text) => {
                let lookup = match parse_flag(text.as_str(), AUTO_CONNECT_KEY) {
                    Err(_) => Lookup::Invalid,
                    Ok(None) => Lookup::Missing,
                    Ok(Some(None)) => Lookup::NotBoolean,
                    Ok(Some(Some(b))) => Lookup::Boolean(b),
                };
                Self::from_lookup(path, lookup)
            },
        }
    }

    /// The configuration held by the file at `path`, or, where the file
    /// gives none, the default: automatic connection switched on.
    pub fn parse_or_default(path: String, content: Option<String>) -> (r: Self)
        ensures
            r.file_path == path,
            r.auto_connect == match Self::meaning(content) {
                Ok(b) => b,
                Err(_) => true,
            },
    {
        match Self::parse(path.clone(), content) {
            Ok(config) => config,
            Err(_) => AppConfig { file_path: path, auto_connect: true },
        }
    }

    /// Whether devices are connected without being asked for.
    pub fn auto_connect(&self) -> (r: bool)
        ensures
            r == self.auto_connect,
    {
        self.auto_connect
    }

    /// Sets the preference and returns the text that the configuration file
    /// has to hold from now on, or `None` where the encoder refuses.
    pub fn set_auto_connect(&mut self, value: bool) -> (r: Option<String>)
        ensures
            final(self).auto_connect == value,
            final(self).file_path == old(self).file_path,
            match r {
                Some(text) => toml_text(AUTO_CONNECT_KEY@, value) == Some(text@),
                None => toml_text(AUTO_CONNECT_KEY@, value).is_none(),
            },
    {
        self.auto_connect = value;
        match write_flag(AUTO_CONNECT_KEY, value) {
            Ok(text) => Some(text),
            Err(_) => None,
        }
    }
}

} // verus!
