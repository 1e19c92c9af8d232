//! The two ends of a conversion: a path together with the format of the
//! document behind it.

use vstd::prelude::*;
use crate::format::{format_named, FileFormat};
use crate::paths::{extension_of, path_extension};

verus! {

/// The characters of an optional string.
pub open spec fn option_text(text: Option<String>) -> Option<Seq<char>> {
    match text {
        Some(text) => Some(text@),
        None => None,
    }
}

/// The format that an extension stands for; a path without an extension has
/// no known format.
pub open spec fn format_of_extension(extension: Option<Seq<char>>) -> FileFormat {
    match extension {
        Some(name) => format_named(name),
        None => FileFormat::Unknown,
    }
}

/// The format of a path: the explicit one where one is given, else the one
/// that the path's extension stands for.
pub open spec fn resolved_format(path: Seq<char>, explicit: Option<FileFormat>) -> FileFormat {
    match explicit {
        Some(format) => format,
        None => format_of_extension(path_extension(path)),
    }
}

/// The format that an extension stands for.
pub fn from_extension(extension: &Option<String>) -> (format: FileFormat)
    ensures
        format == format_of_extension(option_text(*extension)),
{
    match extension {
        Some(name) => FileFormat::from_str(name.as_str()),
        None => FileFormat::Unknown,
    }
}

/// Determines the format of a path. An explicit format is returned as it is;
/// without one the path's extension decides.
pub fn resolve(path: &str, explicit: Option<FileFormat>) -> (format: FileFormat)
    ensures
        format == resolved_format(path@, explicit),
{
    match explicit {
        Some(format) => format,
        None => {
            let extension = extension_of(path);
            from_extension(&extension)
        },
    }
}

/// What both ends of a conversion offer: where the document is, and in which
/// format.
pub trait IO {
    /// The path, as a sequence of characters.
    spec fn location(&self) -> Seq<char>;

    /// The format.
    spec fn syntax(&self) -> FileFormat;

    fn path(&self) -> (path: &String)
        ensures
            path@ == self.location(),
    ;

    fn format(&self) -> (format: &FileFormat)
        ensures
            *format == self.syntax(),
    ;
}

/// The document to read. Its format is fixed when it is made.
pub struct Input {
    path: String,
    format: FileFormat,
}

/// The document to write. Its format is fixed when it is made.
pub struct Output {
    path: String,
    format: FileFormat,
}

impl IO for Input {
    closed spec fn location(&self) -> Seq<char> {
        self.path@
    }

    closed spec fn syntax(&self) -> FileFormat {
        self.format
    }

    fn path(&self) -> (path: &String) {
        &self.path
    }

    /// The format, which is the one that the extension of the path stands
    /// for.
    fn format(&self) -> (format: &FileFormat)
        ensures
            *format == resolved_format(self.location(), None),
    {
        proof {
            use_type_invariant(self);
        }
        &self.format
    }
}

impl IO for Output {
    closed spec fn location(&self) -> Seq<char> {
        self.path@
    }

    closed spec fn syntax(&self) -> FileFormat {
        self.format
    }

    fn path(&self) -> (path: &String) {
        &self.path
    }

    fn format(&self) -> (format: &FileFormat) {
        &self.format
    }
}

impl Input {
    /// An input's format is never chosen: it is the one that the extension
    /// of its path stands for.
    #[verifier::type_invariant]
    closed spec fn format_follows_path(self) -> bool {
        self.format == resolved_format(self.path@, None)
    }

    /// An input at `path`, with the format that the path's extension stands
    /// for.
    pub fn new(path: String) -> (input: Input)
        ensures
            input.location() == path@,
            input.syntax() == resolved_format(path@, None),
    {
        let format = resolve(path.as_str(), None);
        Input { path, format }
    }
}

impl Output {
    /// An output at `path`, with the explicit format where one is given,
    /// else with the format that the path's extension stands for.
    pub fn new(path: String, format: Option<FileFormat>) -> (output: Output)
        ensures
            output.location() == path@,
            output.syntax() == resolved_format(path@, format),
    {
        let format = resolve(path.as_str(), format);
        Output { path, format }
    }
}

} // verus!
