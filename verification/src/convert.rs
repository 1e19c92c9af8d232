//! The conversion itself: which pairs of formats are converted, which are
//! refused and why, and what text a conversion yields.

use vstd::prelude::*;
use crate::codec::{
    describe_json_error, describe_toml_print_error, describe_toml_read_error, describe_yaml_error,
    json_error_text, json_printed, json_read_as_toml, json_read_as_yaml, print_json, print_toml,
    print_yaml, read_json_as_toml, read_json_as_yaml, read_toml_as_json, read_toml_as_yaml,
    read_yaml_as_json, read_yaml_as_toml, toml_print_error_text, toml_printed,
    toml_read_as_json, toml_read_as_yaml, toml_read_error_text, yaml_error_text, yaml_printed,
    yaml_read_as_json, yaml_read_as_toml,
};
use crate::endpoint::IO;
use crate::error::{outcome, ConvertError, Failure};
use crate::format::FileFormat;

verus! {

/// The JSON text of a tree, or the printer's refusal.
pub open spec fn json_text_of(tree: serde_json::Value) -> Result<Seq<char>, Failure> {
    match json_printed(tree) {
        Ok(text) => Ok(text),
        Err(error) => Err(Failure::PrintError(json_error_text(error))),
    }
}

/// The YAML text of a tree, or the printer's refusal.
pub open spec fn yaml_text_of(tree: serde_yaml::Value) -> Result<Seq<char>, Failure> {
    match yaml_printed(tree) {
        Ok(text) => Ok(text),
        Err(error) => Err(Failure::PrintError(yaml_error_text(error))),
    }
}

/// The TOML text of a tree, or the printer's refusal.
pub open spec fn toml_text_of(tree: toml::Value) -> Result<Seq<char>, Failure> {
    match toml_printed(tree) {
        Ok(text) => Ok(text),
        Err(error) => Err(Failure::PrintError(toml_print_error_text(error))),
    }
}

/// What a conversion yields, for every pair of formats and every text.
///
/// An unknown input format is refused first, then an unknown output format,
/// then a pair of equal formats. Each of the six remaining pairs reads the
/// text in the input's syntax straight into the tree type of the output's
/// format and prints that tree; a text that the parser rejects yields the
/// parser's description, a tree that the printer rejects the printer's.
pub open spec fn converted_text(input: FileFormat, output: FileFormat, text: Seq<char>) -> Result<
    Seq<char>,
    Failure,
> {
    match (input, output) {
        (FileFormat::Unknown, _) => Err(Failure::UnknownInputFormat),
        (_, FileFormat::Unknown) => Err(Failure::UnknownOutputFormat),
        (FileFormat::Json, FileFormat::Yaml) => match json_read_as_yaml(text) {
            Ok(tree) => yaml_text_of(tree),
            Err(error) => Err(Failure::ParseError(json_error_text(error))),
        },
        (FileFormat::Toml, FileFormat::Yaml) => match toml_read_as_yaml(text) {
            Ok(tree) => yaml_text_of(tree),
            Err(error) => Err(Failure::ParseError(toml_read_error_text(error))),
        },
        (FileFormat::Json, FileFormat::Toml) => match json_read_as_toml(text) {
            Ok(tree) => toml_text_of(tree),
            Err(error) => Err(Failure::ParseError(json_error_text(error))),
        },
        (FileFormat::Yaml, FileFormat::Toml) => match yaml_read_as_toml(text) {
            Ok(tree) => toml_text_of(tree),
            Err(error) => Err(Failure::ParseError(yaml_error_text(error))),
        },
        (FileFormat::Yaml, FileFormat::Json) => match yaml_read_as_json(text) {
            Ok(tree) => json_text_of(tree),
            Err(error) => Err(Failure::ParseError(yaml_error_text(error))),
        },
        (FileFormat::Toml, FileFormat::Json) => match toml_read_as_json(text) {
            Ok(tree) => json_text_of(tree),
            Err(error) => Err(Failure::ParseError(toml_read_error_text(error))),
        },
        _ => Err(Failure::IdenticalFormats),
    }
}

/// Prints a tree as JSON.
pub fn json_text(tree: &serde_json::Value) -> (result: Result<String, ConvertError>)
    ensures
        outcome(result) == json_text_of(*tree),
{
    match print_json(tree) {
        Ok(text) => Ok(text),
        Err(error) => Err(ConvertError::PrintError(describe_json_error(&error))),
    }
}

/// Prints a tree as YAML.
pub fn yaml_text(tree: &serde_yaml::Value) -> (result: Result<String, ConvertError>)
    ensures
        outcome(result) == yaml_text_of(*tree),
{
    match print_yaml(tree) {
        Ok(text) => Ok(text),
        Err(error) => Err(ConvertError::PrintError(describe_yaml_error(&error))),
    }
}

/// Prints a tree as TOML.
pub fn toml_text(tree: &toml::Value) -> (result: Result<String, ConvertError>)
    ensures
        outcome(result) == toml_text_of(*tree),
{
    match print_toml(tree) {
        Ok(text) => Ok(text),
        Err(error) => Err(ConvertError::PrintError(describe_toml_print_error(&error))),
    }
}

/// Converts `content`, the whole text of the input, from the input's format
/// to the output's.
pub fn transcode<I: IO, O: IO>(input: &I, output: &O, content: &str) -> (result: Result<
    String,
    ConvertError,
>)
    ensures
        outcome(result) == converted_text(input.syntax(), output.syntax(), content@),
{
    match (*input.format(), *output.format()) {
        (FileFormat::Unknown, _) => Err(ConvertError::UnknownInputFormat),
        (_, FileFormat::Unknown) => Err(ConvertError::UnknownOutputFormat),
        (FileFormat::Json, FileFormat::Yaml) => match read_json_as_yaml(content) {
            Ok(tree) => yaml_text(&tree),
            Err(error) => Err(ConvertError::ParseError(describe_json_error(&error))),
        },
        (FileFormat::Toml, FileFormat::Yaml) => match read_toml_as_yaml(content) {
            Ok(tree) => yaml_text(&tree),
            Err(error) => Err(ConvertError::ParseError(describe_toml_read_error(&error))),
        },
        (FileFormat::Json, FileFormat::Toml) => match read_json_as_toml(content) {
            Ok(tree) => toml_text(&tree),
            Err(error) => Err(ConvertError::ParseError(describe_json_error(&error))),
        },
        (FileFormat::Yaml, FileFormat::Toml) => match read_yaml_as_toml(content) {
            Ok(tree) => toml_text(&tree),
            Err(error) => Err(ConvertError::ParseError(describe_yaml_error(&error))),
        },
        (FileFormat::Yaml, FileFormat::Json) => match read_yaml_as_json(content) {
            Ok(tree) => json_text(&tree),
            Err(error) => Err(ConvertError::ParseError(describe_yaml_error(&error))),
        },
        (FileFormat::Toml, FileFormat::Json) => match read_toml_as_json(content) {
            Ok(tree) => json_text(&tree),
            Err(error) => Err(ConvertError::ParseError(describe_toml_read_error(&error))),
        },
        _ => Err(ConvertError::IdenticalFormats),
    }
}

} // verus!
