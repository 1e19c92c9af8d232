//! The ways in which a conversion ends without a result.

use vstd::prelude::*;
use vstd::string::StringExecFns;

verus! {

/// Why a conversion was refused or failed.
#[derive(Debug)]
pub enum ConvertError {
    /// The input and the output have the same format.
    IdenticalFormats,
    /// The output's format could not be determined.
    UnknownOutputFormat,
    /// The input's format could not be determined.
    UnknownInputFormat,
    /// The input's text was not accepted; the parser's description is kept.
    ParseError(String),
    /// The document has no text in the output's format; the printer's
    /// description is kept.
    PrintError(String),
    /// The output file could not be written.
    WriteError,
}

/// A `ConvertError` with its descriptions as sequences of characters.
pub ghost enum Failure {
    IdenticalFormats,
    UnknownOutputFormat,
    UnknownInputFormat,
    ParseError(Seq<char>),
    PrintError(Seq<char>),
    WriteError,
}

impl View for ConvertError {
    type V = Failure;

    open spec fn view(&self) -> Failure {
        match self {
            ConvertError::IdenticalFormats => Failure::IdenticalFormats,
            ConvertError::UnknownOutputFormat => Failure::UnknownOutputFormat,
            ConvertError::UnknownInputFormat => Failure::UnknownInputFormat,
            ConvertError::ParseError(description) => Failure::ParseError(description@),
            ConvertError::PrintError(description) => Failure::PrintError(description@),
            ConvertError::WriteError => Failure::WriteError,
        }
    }
}

/// A result with its texts as sequences of characters.
pub open spec fn outcome(result: Result<String, ConvertError>) -> Result<Seq<char>, Failure> {
    match result {
        Ok(text) => Ok(text@),
        Err(error) => Err(error@),
    }
}

/// The message that a failure is reported with: a fixed sentence, or the
/// parser's or printer's own description, unchanged.
pub open spec fn failure_message(failure: Failure) -> Seq<char> {
    match failure {
        Failure::IdenticalFormats => "Input format is the same as output format."@,
        Failure::UnknownOutputFormat => "Output format is unknown"@,
        Failure::UnknownInputFormat => "Input format is unknown"@,
        Failure::ParseError(description) => description,
        Failure::PrintError(description) => description,
        Failure::WriteError => "Failed to write file"@,
    }
}

impl ConvertError {
    /// The message to show to the user.
    pub fn message(&self) -> (text: String)
        ensures
            text@ == failure_message(self@),
    {
        match self {
            ConvertError::IdenticalFormats => String::from_str(
                "Input format is the same as output format.",
            ),
            ConvertError::UnknownOutputFormat => String::from_str("Output format is unknown"),
            ConvertError::UnknownInputFormat => String::from_str("Input format is unknown"),
            ConvertError::ParseError(description) => description.clone(),
            ConvertError::PrintError(description) => description.clone(),
            ConvertError::WriteError => String::from_str("Failed to write file"),
        }
    }
}

} // verus!
