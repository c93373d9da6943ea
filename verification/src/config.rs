//! The configuration record and its parser: a TOML document with a
//! credential, a model identifier, a token limit and a temperature.

use vstd::prelude::*;

verus! {

/// The immutable configuration record, loaded once at startup.
#[derive(Debug, PartialEq, Eq)]
pub struct Config {
    pub api_key: String,
    pub model: String,
    pub max_tokens: i64,
    pub temperature: i64,
}

/// Why a configuration document was rejected.
#[derive(Clone, Copy, Debug, PartialEq, Eq, Structural)]
pub enum ConfigError {
    /// The document is not well-formed TOML.
    Syntax,
    /// The `api_key` field is absent or not a string.
    MissingApiKey,
    /// The `model` field is absent or not a string.
    MissingModel,
    /// The `max_tokens` field is absent or not an integer.
    MissingMaxTokens,
    /// The `temperature` field is absent or not an integer.
    MissingTemperature,
}

/// Whether a text is a well-formed TOML document.
pub uninterp spec fn toml_parses(s: Seq<char>) -> bool;

/// The string at a top-level key of a TOML document: present exactly
/// when the document parses and the key holds a string value, and then
/// the decoded payload of that value.
pub uninterp spec fn toml_str_field(doc: Seq<char>, key: Seq<char>) -> Option<Seq<char>>;

/// The integer at a top-level key of a TOML document: present exactly
/// when the document parses and the key holds an integer value.
pub uninterp spec fn toml_int_field(doc: Seq<char>, key: Seq<char>) -> Option<i64>;

/// Relies on toml::from_str: whether a document parses, which depends
/// on the text alone.
#[verifier::external_body]
fn toml_check(doc: &str) -> (r: bool)
    ensures
        r == toml_parses(doc@),
{
    toml::from_str::<toml::Value>(doc).is_ok()
}

/// Relies on toml::from_str, toml::Value::get and toml::Value::as_str:
/// reads the string at a top-level key of a document. The result
/// depends on the document and the key alone.
#[verifier::external_body]
fn toml_get_str(doc: &str, key: &str) -> (r: Option<String>)
    ensures
        r is Some <==> (toml_parses(doc@) && toml_str_field(doc@, key@) is Some),
        r matches Some(s) ==> Some(s@) == toml_str_field(doc@, key@),
{
    let v: toml::Value = toml::from_str(doc).ok()?;
    Some(v.get(key)?.as_str()?.to_owned())
}

/// Relies on toml::from_str, toml::Value::get and
/// toml::Value::as_integer: reads the integer at a top-level key of a
/// document. The result depends on the document and the key alone.
#[verifier::external_body]
fn toml_get_int(doc: &str, key: &str) -> (r: Option<i64>)
    ensures
        r is Some <==> (toml_parses(doc@) && toml_int_field(doc@, key@) is Some),
        r matches Some(n) ==> Some(n) == toml_int_field(doc@, key@),
{
    let v: toml::Value = toml::from_str(doc).ok()?;
    v.get(key)?.as_integer()
}

/// Parses a configuration document. A text that is not well-formed
/// TOML is rejected as a syntax error, and exactly those texts are; a
/// well-formed document is rejected exactly for the first required
/// field, in the order `api_key`, `model`, `max_tokens`,
/// `temperature`, that is absent or of the wrong type, named by the
/// error. On success the record carries exactly the four fields of
/// the document.
pub fn parse_config(contents: &str) -> (r: Result<Config, ConfigError>)
    ensures
        r is Ok <==> toml_parses(contents@)
            && toml_str_field(contents@, "api_key"@) is Some
            && toml_str_field(contents@, "model"@) is Some
            && toml_int_field(contents@, "max_tokens"@) is Some
            && toml_int_field(contents@, "temperature"@) is Some,
        r == Result::<Config, ConfigError>::Err(ConfigError::Syntax) <==> !toml_parses(contents@),
        toml_parses(contents@) && toml_str_field(contents@, "api_key"@) is None
            ==> r == Result::<Config, ConfigError>::Err(ConfigError::MissingApiKey),
        toml_parses(contents@) && toml_str_field(contents@, "api_key"@) is Some
            && toml_str_field(contents@, "model"@) is None
            ==> r == Result::<Config, ConfigError>::Err(ConfigError::MissingModel),
        toml_parses(contents@) && toml_str_field(contents@, "api_key"@) is Some
            && toml_str_field(contents@, "model"@) is Some
            && toml_int_field(contents@, "max_tokens"@) is None
            ==> r == Result::<Config, ConfigError>::Err(ConfigError::MissingMaxTokens),
        toml_parses(contents@) && toml_str_field(contents@, "api_key"@) is Some
            && toml_str_field(contents@, "model"@) is Some
            && toml_int_field(contents@, "max_tokens"@) is Some
            && toml_int_field(contents@, "temperature"@) is None
            ==> r == Result::<Config, ConfigError>::Err(ConfigError::MissingTemperature),
        r matches Ok(c) ==> Some(c.api_key@) == toml_str_field(contents@, "api_key"@)
            && Some(c.model@) == toml_str_field(contents@, "model"@)
            && Some(c.max_tokens) == toml_int_field(contents@, "max_tokens"@)
            && Some(c.temperature) == toml_int_field(contents@, "temperature"@),
{
    if !toml_check(contents) {
        return Err(ConfigError::Syntax);
    }
    let api_key = match toml_get_str(contents, "api_key") {
        Some(s) => s,
        None => {
            return Err(ConfigError::MissingApiKey);
        },
    };
    let model = match toml_get_str(contents, "model") {
        Some(s) => s,
        None => {
            return Err(ConfigError::MissingModel);
        },
    };
    let max_tokens = match toml_get_int(contents, "max_tokens") {
        Some(n) => n,
        None => {
            return Err(ConfigError::MissingMaxTokens);
        },
    };
    let temperature = match toml_get_int(contents, "temperature") {
        Some(n) => n,
        None => {
            return Err(ConfigError::MissingTemperature);
        },
    };
    Ok(Config { api_key, model, max_tokens, temperature })
}

} // verus!
