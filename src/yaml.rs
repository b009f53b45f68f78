//! The logging settings, which the configuration carries through as a YAML
//! document.

use vstd::prelude::*;

use crate::resolve::ConfigError;

verus! {

#[verifier::external_type_specification]
#[verifier::external_body]
pub struct ExYamlValue(serde_yaml::Value);

/// The logging settings used where the configuration gives none: a console
/// appender, errors only at the root, and informational messages from this
/// relay's own logger.
pub const DEFAULT_LOGGER_SETTINGS: &'static str = r##"
appenders:
  stdout:
    kind: console
    encoder:
      pattern: "{d(%Y-%m-%d %H:%M:%S %Z)(utc)} - {h({l})} {M} = {m} {n}"
root:
  level: error
  appenders:
    - stdout
loggers:
  ton_kafka_producer:
    level: info
    appenders:
      - stdout
    additive: false
"##;

/// Whether the text `s` reads as one YAML value.
pub uninterp spec fn yaml_parses(s: Seq<char>) -> bool;

/// Relies on serde_yaml::from_str into a `serde_yaml::Value`: it succeeds
/// or fails according to the text alone.
#[verifier::external_body]
fn parse_yaml(text: &str) -> (r: Result<serde_yaml::Value, String>)
    ensures
        r is Ok <==> yaml_parses(text@),
{
    serde_yaml::from_str(text).map_err(|e| e.to_string())
}

/// Parses `text` as the logging settings.
pub fn logger_settings_from_str(text: &str) -> (r: Result<serde_yaml::Value, ConfigError>)
    ensures
        r is Ok <==> yaml_parses(text@),
        r is Err ==> r->Err_0 is ConfigParseFailed,
{
    match parse_yaml(text) {
        Ok(v) => Ok(v),
        Err(m) => Err(ConfigError::ConfigParseFailed(m)),
    }
}

/// The default logging settings, parsed.
pub fn default_logger_settings() -> (r: Result<serde_yaml::Value, ConfigError>)
    ensures
        r is Ok <==> yaml_parses(DEFAULT_LOGGER_SETTINGS@),
        r is Err ==> r->Err_0 is ConfigParseFailed,
{
    logger_settings_from_str(DEFAULT_LOGGER_SETTINGS)
}

} // verus!
