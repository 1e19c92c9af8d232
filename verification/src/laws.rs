//! What holds of every conversion, whatever the text.

use vstd::prelude::*;
use crate::convert::converted_text;
use crate::endpoint::{format_of_extension, resolved_format};
use crate::error::Failure;
use crate::format::{canonical_extension, format_named, FileFormat};
use crate::paths::path_with_extension;
use crate::pipeline::{output_location, pair_refusal};

verus! {

/// Whether a failure is one of the three refusals that depend on the formats
/// alone.
pub open spec fn is_format_refusal(failure: Failure) -> bool {
    failure == Failure::IdenticalFormats || failure == Failure::UnknownInputFormat || failure
        == Failure::UnknownOutputFormat
}

/// Two different known formats are never refused: the conversion is let
/// through to the parser, and ends with a text, with the parser's error or
/// with the printer's error.
pub proof fn distinct_known_formats_are_attempted(
    input: FileFormat,
    output: FileFormat,
    text: Seq<char>,
)
    requires
        input.is_known(),
        output.is_known(),
        input != output,
    ensures
        pair_refusal(input, output) is None,
        match converted_text(input, output, text) {
            Ok(_) => true,
            Err(Failure::ParseError(_)) => true,
            Err(Failure::PrintError(_)) => true,
            Err(_) => false,
        },
{
}

/// A format is never converted to itself. Before anything is read the pair
/// is refused as identical, two unknown formats included; the conversion
/// refuses a known format paired with itself in the same way.
pub proof fn equal_formats_are_refused(format: FileFormat, text: Seq<char>)
    ensures
        pair_refusal(format, format) == Some(Failure::IdenticalFormats),
        format.is_known() ==> converted_text(format, format, text) == Err::<Seq<char>, Failure>(
            Failure::IdenticalFormats,
        ),
{
}

/// An extension other than `json`, `yaml`, `yml` and `toml`, or none at all,
/// gives the unknown format, and no other extension does.
pub proof fn unknown_format_of_extension(extension: Option<Seq<char>>)
    ensures
        format_of_extension(extension) == FileFormat::Unknown <==> match extension {
            Some(name) => name != "json"@ && name != "yaml"@ && name != "yml"@ && name
                != "toml"@,
            None => true,
        },
{
}

/// An input of unknown format is refused as such, whatever the output's
/// format and the text; before anything is read it is refused as such for
/// every output of known format.
pub proof fn unknown_input_is_refused(output: FileFormat, text: Seq<char>)
    ensures
        converted_text(FileFormat::Unknown, output, text) == Err::<Seq<char>, Failure>(
            Failure::UnknownInputFormat,
        ),
        output.is_known() ==> pair_refusal(FileFormat::Unknown, output) == Some(
            Failure::UnknownInputFormat,
        ),
{
}

/// An output of unknown format is refused as such for every input of known
/// format, whatever the text.
pub proof fn unknown_output_is_refused(input: FileFormat, text: Seq<char>)
    requires
        input.is_known(),
    ensures
        converted_text(input, FileFormat::Unknown, text) == Err::<Seq<char>, Failure>(
            Failure::UnknownOutputFormat,
        ),
        pair_refusal(input, FileFormat::Unknown) == Some(Failure::UnknownOutputFormat),
{
}

/// The decision before reading and the conversion agree: a pair that is let
/// through before reading is not refused for its formats by the conversion,
/// and a pair of different formats that is refused before reading is refused
/// by the conversion for the same reason.
pub proof fn refusals_agree(input: FileFormat, output: FileFormat, text: Seq<char>)
    ensures
        pair_refusal(input, output) is None ==> !(converted_text(input, output, text) matches Err(
            failure,
        ) && is_format_refusal(failure)),
        input != output ==> (pair_refusal(input, output) matches Some(failure)
            ==> converted_text(input, output, text) == Err::<Seq<char>, Failure>(failure)),
{
}

/// The canonical extension of a format names that format.
pub proof fn canonical_extension_names_its_format(format: FileFormat)
    ensures
        format_named(canonical_extension(format)) == format,
{
    reveal_strlit("json");
    reveal_strlit("yaml");
    reveal_strlit("yml");
    reveal_strlit("toml");
    reveal_strlit("txt");
    // The names differ in length or in their first character.
    assert("json"@.len() == 4 && "yaml"@.len() == 4 && "toml"@.len() == 4);
    assert("yml"@.len() == 3 && "txt"@.len() == 3);
    assert("json"@[0] == 'j' && "yaml"@[0] == 'y' && "toml"@[0] == 't');
    assert("yml"@[0] == 'y' && "txt"@[0] == 't');
}

/// An output that is named by an explicit format alone has that format, and
/// stands where the input stands but for the extension.
pub proof fn derived_output_has_the_explicit_format(input_path: Seq<char>, format: FileFormat)
    ensures
        resolved_format(output_location(input_path, None, Some(format)), Some(format)) == format,
        output_location(input_path, None, Some(format)) == path_with_extension(
            input_path,
            canonical_extension(format),
        ),
{
}

} // verus!
