//! The calls into the parser and printer crates.
//!
//! Nothing in this module is proved. Each function makes one call into
//! `serde_json`, `serde_yaml` or `toml`, and its contract gives the outcome of
//! that call a name, so that the contracts of the conversion functions can say
//! which call produced a text. A document tree and a parser's error are
//! carried through as the crates' own types; the library never looks inside
//! one.

use vstd::prelude::*;

verus! {

/// `serde_json::Value`: a document tree in JSON's data model.
#[verifier::external_type_specification]
#[verifier::external_body]
pub struct ExJsonValue(serde_json::Value);

/// `serde_yaml::Value`: a document tree in YAML's data model.
#[verifier::external_type_specification]
#[verifier::external_body]
pub struct ExYamlValue(serde_yaml::Value);

/// `toml::Value`: a document tree in TOML's data model.
#[verifier::external_type_specification]
#[verifier::external_body]
pub struct ExTomlValue(toml::Value);

/// `serde_json::Error`: why JSON text was not read, or a tree not printed.
#[verifier::external_type_specification]
#[verifier::external_body]
pub struct ExJsonError(serde_json::Error);

/// `serde_yaml::Error`: why YAML text was not read, or a tree not printed.
#[verifier::external_type_specification]
#[verifier::external_body]
pub struct ExYamlError(serde_yaml::Error);

/// `toml::de::Error`: why TOML text was not read.
#[verifier::external_type_specification]
#[verifier::external_body]
pub struct ExTomlReadError(toml::de::Error);

/// `toml::ser::Error`: why a tree was not printed as TOML.
#[verifier::external_type_specification]
#[verifier::external_body]
pub struct ExTomlPrintError(toml::ser::Error);

/// What `serde_json::from_str::<serde_yaml::Value>` returns for a text.
pub uninterp spec fn json_read_as_yaml(text: Seq<char>) -> Result<serde_yaml::Value, serde_json::Error>;

/// What `serde_json::from_str::<toml::Value>` returns for a text.
pub uninterp spec fn json_read_as_toml(text: Seq<char>) -> Result<toml::Value, serde_json::Error>;

/// What `serde_yaml::from_str::<serde_json::Value>` returns for a text.
pub uninterp spec fn yaml_read_as_json(text: Seq<char>) -> Result<serde_json::Value, serde_yaml::Error>;

/// What `serde_yaml::from_str::<toml::Value>` returns for a text.
pub uninterp spec fn yaml_read_as_toml(text: Seq<char>) -> Result<toml::Value, serde_yaml::Error>;

/// What `toml::from_str::<serde_json::Value>` returns for a text.
pub uninterp spec fn toml_read_as_json(text: Seq<char>) -> Result<serde_json::Value, toml::de::Error>;

/// What `toml::from_str::<serde_yaml::Value>` returns for a text.
pub uninterp spec fn toml_read_as_yaml(text: Seq<char>) -> Result<serde_yaml::Value, toml::de::Error>;

/// What `serde_json::to_string` returns for a JSON tree.
pub uninterp spec fn json_printed(tree: serde_json::Value) -> Result<Seq<char>, serde_json::Error>;

/// What `serde_yaml::to_string` returns for a YAML tree.
pub uninterp spec fn yaml_printed(tree: serde_yaml::Value) -> Result<Seq<char>, serde_yaml::Error>;

/// What `toml::to_string` returns for a TOML tree.
pub uninterp spec fn toml_printed(tree: toml::Value) -> Result<Seq<char>, toml::ser::Error>;

/// The text that `serde_json::Error` displays.
pub uninterp spec fn json_error_text(error: serde_json::Error) -> Seq<char>;

/// The text that `serde_yaml::Error` displays.
pub uninterp spec fn yaml_error_text(error: serde_yaml::Error) -> Seq<char>;

/// The text that `toml::de::Error` displays.
pub uninterp spec fn toml_read_error_text(error: toml::de::Error) -> Seq<char>;

/// The text that `toml::ser::Error` displays.
pub uninterp spec fn toml_print_error_text(error: toml::ser::Error) -> Seq<char>;

/// Calls `serde_json::from_str` with `serde_yaml::Value` as the target. The
/// contract only names the outcome: whether the text is accepted, and what
/// tree or error comes back, is the parser's business.
#[verifier::external_body]
pub(crate) fn read_json_as_yaml(text: &str) -> (outcome: Result<serde_yaml::Value, serde_json::Error>)
    ensures
        outcome == json_read_as_yaml(text@),
{
    serde_json::from_str::<serde_yaml::Value>(text)
}

/// Calls `serde_json::from_str` with `toml::Value` as the target. The
/// contract only names the outcome.
#[verifier::external_body]
pub(crate) fn read_json_as_toml(text: &str) -> (outcome: Result<toml::Value, serde_json::Error>)
    ensures
        outcome == json_read_as_toml(text@),
{
    serde_json::from_str::<toml::Value>(text)
}

/// Calls `serde_yaml::from_str` with `serde_json::Value` as the target. The
/// contract only names the outcome.
#[verifier::external_body]
pub(crate) fn read_yaml_as_json(text: &str) -> (outcome: Result<serde_json::Value, serde_yaml::Error>)
    ensures
        outcome == yaml_read_as_json(text@),
{
    serde_yaml::from_str::<serde_json::Value>(text)
}

/// Calls `serde_yaml::from_str` with `toml::Value` as the target. The
/// contract only names the outcome.
#[verifier::external_body]
pub(crate) fn read_yaml_as_toml(text: &str) -> (outcome: Result<toml::Value, serde_yaml::Error>)
    ensures
        outcome == yaml_read_as_toml(text@),
{
    serde_yaml::from_str::<toml::Value>(text)
}

/// Calls `toml::from_str` with `serde_json::Value` as the target. The
/// contract only names the outcome.
#[verifier::external_body]
pub(crate) fn read_toml_as_json(text: &str) -> (outcome: Result<serde_json::Value, toml::de::Error>)
    ensures
        outcome == toml_read_as_json(text@),
{
    toml::from_str::<serde_json::Value>(text)
}

/// Calls `toml::from_str` with `serde_yaml::Value` as the target. The
/// contract only names the outcome.
#[verifier::external_body]
pub(crate) fn read_toml_as_yaml(text: &str) -> (outcome: Result<serde_yaml::Value, toml::de::Error>)
    ensures
        outcome == toml_read_as_yaml(text@),
{
    toml::from_str::<serde_yaml::Value>(text)
}

/// Calls `serde_json::to_string` on a JSON tree. The contract only names the
/// outcome; the printer may refuse a tree.
#[verifier::external_body]
pub(crate) fn print_json(tree: &serde_json::Value) -> (outcome: Result<String, serde_json::Error>)
    ensures
        match (outcome, json_printed(*tree)) {
            (Ok(text), Ok(named)) => text@ == named,
            (Err(error), Err(named)) => error == named,
            _ => false,
        },
{
    serde_json::to_string(tree)
}

/// Calls `serde_yaml::to_string` on a YAML tree. The contract only names the
/// outcome; the printer may refuse a tree.
#[verifier::external_body]
pub(crate) fn print_yaml(tree: &serde_yaml::Value) -> (outcome: Result<String, serde_yaml::Error>)
    ensures
        match (outcome, yaml_printed(*tree)) {
            (Ok(text), Ok(named)) => text@ == named,
            (Err(error), Err(named)) => error == named,
            _ => false,
        },
{
    serde_yaml::to_string(tree)
}

/// Calls `toml::to_string` on a TOML tree. The contract only names the
/// outcome; the printer refuses, among others, a tree whose root is no table.
#[verifier::external_body]
pub(crate) fn print_toml(tree: &toml::Value) -> (outcome: Result<String, toml::ser::Error>)
    ensures
        match (outcome, toml_printed(*tree)) {
            (Ok(text), Ok(named)) => text@ == named,
            (Err(error), Err(named)) => error == named,
            _ => false,
        },
{
    toml::to_string(tree)
}

/// Formats a `serde_json::Error` through its `Display` impl. The contract
/// only names the text.
#[verifier::external_body]
pub(crate) fn describe_json_error(error: &serde_json::Error) -> (text: String)
    ensures
        text@ == json_error_text(*error),
{
    error.to_string()
}

/// Formats a `serde_yaml::Error` through its `Display` impl. The contract
/// only names the text.
#[verifier::external_body]
pub(crate) fn describe_yaml_error(error: &serde_yaml::Error) -> (text: String)
    ensures
        text@ == yaml_error_text(*error),
{
    error.to_string()
}

/// Formats a `toml::de::Error` through its `Display` impl. The contract only
/// names the text.
#[verifier::external_body]
pub(crate) fn describe_toml_read_error(error: &toml::de::Error) -> (text: String)
    ensures
        text@ == toml_read_error_text(*error),
{
    error.to_string()
}

/// Formats a `toml::ser::Error` through its `Display` impl. The contract
/// only names the text.
#[verifier::external_body]
pub(crate) fn describe_toml_print_error(error: &toml::ser::Error) -> (text: String)
    ensures
        text@ == toml_print_error_text(*error),
{
    error.to_string()
}

} // verus!
