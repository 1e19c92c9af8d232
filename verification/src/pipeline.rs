//! The steps around a conversion: where the output goes, whether the
//! conversion may start, and what is reported when it is done.
//!
//! Reading the input and writing the output are the caller's part. The
//! caller prepares the two ends, reads the input only where that succeeds,
//! converts, writes, and hands the outcome of the write to `conclude`.

use vstd::prelude::*;
use vstd::string::StringExecFns;
use crate::endpoint::{option_text, resolved_format, Input, Output, IO};
use crate::error::{outcome, ConvertError, Failure};
use crate::format::{canonical_extension, FileFormat};
use crate::paths::{path_with_extension, replace_extension, separator_free};

verus! {

/// Why a pair of formats is refused before anything is read, if it is.
///
/// Equal formats are refused first, two unknown ones among them; then an
/// unknown input format; then an unknown output format.
pub open spec fn pair_refusal(input: FileFormat, output: FileFormat) -> Option<Failure> {
    if input == output {
        Some(Failure::IdenticalFormats)
    } else if input == FileFormat::Unknown {
        Some(Failure::UnknownInputFormat)
    } else if output == FileFormat::Unknown {
        Some(Failure::UnknownOutputFormat)
    } else {
        None
    }
}

/// Where the output goes: to the given path, or, where none is given, to the
/// input's path with the canonical extension of the explicit format.
pub open spec fn output_location(
    input_path: Seq<char>,
    output: Option<Seq<char>>,
    format: Option<FileFormat>,
) -> Seq<char>
    recommends
        output is Some || format is Some,
{
    match output {
        Some(path) => path,
        None => path_with_extension(input_path, canonical_extension(format->0)),
    }
}

/// The line that confirms a conversion.
pub open spec fn confirmation_text(input_path: Seq<char>, output_path: Seq<char>) -> Seq<char> {
    "Wrote "@ + input_path + " to "@ + output_path
}

/// No canonical extension holds a path separator.
pub proof fn canonical_extension_is_separator_free(format: FileFormat)
    ensures
        separator_free(canonical_extension(format)),
{
    reveal_strlit("json");
    reveal_strlit("yml");
    reveal_strlit("toml");
    reveal_strlit("txt");
}

/// Decides whether a pair of formats may be converted.
pub fn accept_pair(input: FileFormat, output: FileFormat) -> (result: Result<(), ConvertError>)
    ensures
        match pair_refusal(input, output) {
            Some(failure) => result matches Err(error) && error@ == failure,
            None => result is Ok,
        },
{
    if input == output {
        Err(ConvertError::IdenticalFormats)
    } else if input == FileFormat::Unknown {
        Err(ConvertError::UnknownInputFormat)
    } else if output == FileFormat::Unknown {
        Err(ConvertError::UnknownOutputFormat)
    } else {
        Ok(())
    }
}

/// Settles the output's path. One of `output` and `format` must be given.
pub fn output_path(input_path: &str, output: Option<String>, format: Option<FileFormat>) -> (path:
    String)
    requires
        output is Some || format is Some,
    ensures
        path@ == output_location(input_path@, option_text(output), format),
{
    match output {
        Some(path) => path,
        None => {
            let format = format.unwrap();
            let extension = format.to_string();
            proof {
                canonical_extension_is_separator_free(format);
            }
            replace_extension(input_path, extension.as_str())
        },
    }
}

/// Makes both ends of a conversion and decides whether it may start. One of
/// `output` and `format` must be given.
///
/// The input's format comes from its path alone. The output's format is the
/// explicit one, else that of the output's path. Nothing is read or written.
pub fn prepare(input_path: String, output: Option<String>, format: Option<FileFormat>) -> (result:
    Result<(Input, Output), ConvertError>)
    requires
        output is Some || format is Some,
    ensures
        ({
            let target = output_location(input_path@, option_text(output), format);
            let source_format = resolved_format(input_path@, None);
            let target_format = resolved_format(target, format);
            match pair_refusal(source_format, target_format) {
                Some(failure) => result matches Err(error) && error@ == failure,
                None => result matches Ok((source, sink)) && source.location() == input_path@
                    && source.syntax() == source_format && sink.location() == target
                    && sink.syntax() == target_format,
            }
        }),
{
    let target = output_path(input_path.as_str(), output, format);
    let source = Input::new(input_path);
    let sink = Output::new(target, format);
    match accept_pair(*source.format(), *sink.format()) {
        Ok(()) => Ok((source, sink)),
        Err(error) => Err(error),
    }
}

/// The line that confirms that the input was converted and written.
pub fn confirmation<I: IO, O: IO>(input: &I, output: &O) -> (line: String)
    ensures
        line@ == confirmation_text(input.location(), output.location()),
{
    let mut line = String::from_str("Wrote ");
    line.append(input.path().as_str());
    line.append(" to ");
    line.append(output.path().as_str());
    line
}

/// Closes a conversion: the confirmation where the output was written, the
/// write error where it was not.
pub fn conclude<I: IO, O: IO>(input: &I, output: &O, written: bool) -> (result: Result<
    String,
    ConvertError,
>)
    ensures
        outcome(result) == if written {
            Ok(confirmation_text(input.location(), output.location()))
        } else {
            Err(Failure::WriteError)
        },
{
    if written {
        Ok(confirmation(input, output))
    } else {
        Err(ConvertError::WriteError)
    }
}

} // verus!
