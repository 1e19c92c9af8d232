//! The tag that names a document syntax.

use vstd::prelude::*;

verus! {

/// One of the three supported syntaxes, or `Unknown` where none could be
/// determined.
#[derive(Copy, Clone, Debug, PartialEq, Eq, Structural)]
pub enum FileFormat {
    Json,
    Yaml,
    Toml,
    Unknown,
}

/// The format that a name stands for. Names are matched exactly and with
/// regard to case; both `yaml` and `yml` name YAML.
pub open spec fn format_named(name: Seq<char>) -> FileFormat {
    if name == "json"@ {
        FileFormat::Json
    } else if name == "yaml"@ || name == "yml"@ {
        FileFormat::Yaml
    } else if name == "toml"@ {
        FileFormat::Toml
    } else {
        FileFormat::Unknown
    }
}

/// The extension that files of a format are given.
pub open spec fn canonical_extension(format: FileFormat) -> Seq<char> {
    match format {
        FileFormat::Json => "json"@,
        FileFormat::Yaml => "yml"@,
        FileFormat::Toml => "toml"@,
        FileFormat::Unknown => "txt"@,
    }
}

/// Whether two strings hold the same characters.
fn same_text(a: &str, b: &str) -> (same: bool)
    ensures
        same == (a@ == b@),
{
    let left: String = a.to_owned();
    let right: String = b.to_owned();
    left == right
}

impl FileFormat {
    /// Whether the format is one of the three supported syntaxes.
    pub open spec fn is_known(self) -> bool {
        self != FileFormat::Unknown
    }

    /// Reads a format's name.
    pub fn from_str(s: &str) -> (format: FileFormat)
        ensures
            format == format_named(s@),
    {
        if same_text(s, "json") {
            FileFormat::Json
        } else if same_text(s, "yaml") || same_text(s, "yml") {
            FileFormat::Yaml
        } else if same_text(s, "toml") {
            FileFormat::Toml
        } else {
            FileFormat::Unknown
        }
    }

    /// The canonical extension of the format, without a dot.
    pub fn to_string(&self) -> (text: String)
        ensures
            text@ == canonical_extension(*self),
    {
        match self {
            FileFormat::Json => "json".to_owned(),
            FileFormat::Yaml => "yml".to_owned(),
            FileFormat::Toml => "toml".to_owned(),
            FileFormat::Unknown => "txt".to_owned(),
        }
    }
}

} // verus!
