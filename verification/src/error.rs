//! The error type shared by the whole crate.

use vstd::prelude::*;
use vstd::string::StringExecFns;

verus! {

/// `std::io::Error`, carried through as an opaque value.
#[verifier::external_type_specification]
#[verifier::external_body]
pub struct ExIoError(std::io::Error);

/// Crate specific error type
pub enum Error {
    /// An error that occurred during an I/O operation. See [`IoError`]
    IoError(IoError),
    /// An error that is related to input data being invalid. Each function
    /// that possibly returns this error has detailed information about when
    /// it returns this error type.
    InvalidInput(String),
}

/// Variant of [`Error`] representing an error that occurred during file I/O
pub struct IoError {
    /// The file that the operation was working on or related to
    pub file: String,
    /// The actual [`std::io::Error`] that occurred
    pub error: std::io::Error,
}

/// What `{:?}` prints for a string: the string between double quotes, with
/// the characters escaped that a string literal has to escape. It names the
/// result of `<str as std::fmt::Debug>::fmt`.
pub uninterp spec fn debug_quoted(s: Seq<char>) -> Seq<char>;

/// Formats a string with `{:?}`, that is by `<str as std::fmt::Debug>::fmt`,
/// whose result depends on the string alone.
#[verifier::external_body]
fn quote(s: &str) -> (res: String)
    ensures
        res@ == debug_quoted(s@),
{
    format!("{s:?}")
}

/// Formats an I/O error with `{}`, that is by
/// `<std::io::Error as std::fmt::Display>::fmt`. For an error of the
/// operating system the text is the system's own: nothing is claimed of it.
#[verifier::external_body]
pub(crate) fn io_error_description(e: &std::io::Error) -> String {
    format!("{e}")
}

/// Formats an I/O error with `{:?}`, that is by
/// `<std::io::Error as std::fmt::Debug>::fmt`. For an error of the operating
/// system the text holds the system's own: nothing is claimed of it.
#[verifier::external_body]
fn io_error_debug(e: &std::io::Error) -> String {
    format!("{e:?}")
}

/// What is shown of an I/O failure on `file` that the system describes as
/// `detail`.
pub open spec fn io_text(file: Seq<char>, detail: Seq<char>) -> Seq<char> {
    "File: \""@ + file + "\"; "@ + detail
}

/// What is shown of an I/O failure on `file` to a developer; `detail` is the
/// underlying error as `{:?}` prints it.
pub open spec fn io_debug_text(file: Seq<char>, detail: Seq<char>) -> Seq<char> {
    "IoError { file: \""@ + file + "\", error: "@ + detail + " }"@
}

/// What is shown of invalid input with the given message.
pub open spec fn invalid_input_text(message: Seq<char>) -> Seq<char> {
    "Invalid input: "@ + message
}

/// What is shown of invalid input with the given message to a developer.
pub open spec fn invalid_input_debug_text(message: Seq<char>) -> Seq<char> {
    "InvalidInput ("@ + debug_quoted(message) + ")"@
}

/// What is shown to a developer of an error that is an I/O failure; `inner`
/// is what is shown of the failure itself.
pub open spec fn io_variant_debug_text(inner: Seq<char>) -> Seq<char> {
    "IoError ("@ + inner + ")"@
}

/// The text of an I/O failure on `file` that the system describes as
/// `detail`.
pub fn describe_io(file: &str, detail: &str) -> (res: String)
    ensures
        res@ == io_text(file@, detail@),
{
    let mut text = "File: \"".to_owned();
    text.append(file);
    text.append("\"; ");
    text.append(detail);
    text
}

/// The text for a developer of an I/O failure on `file`; `detail` is the
/// underlying error as `{:?}` prints it.
pub fn describe_io_debug(file: &str, detail: &str) -> (res: String)
    ensures
        res@ == io_debug_text(file@, detail@),
{
    let mut text = "IoError { file: \"".to_owned();
    text.append(file);
    text.append("\", error: ");
    text.append(detail);
    text.append(" }");
    text
}

impl IoError {
    /// The failure as a user is shown it: the file between double quotes,
    /// then the underlying error as the system describes it.
    pub fn to_text(&self) -> (res: String)
        ensures
            exists|detail: Seq<char>| res@ == io_text(self.file@, detail),
    {
        let detail = io_error_description(&self.error);
        describe_io(self.file.as_str(), detail.as_str())
    }

    /// The failure as a developer is shown it: the file between double
    /// quotes, then the underlying error as `{:?}` prints it.
    pub fn to_debug_text(&self) -> (res: String)
        ensures
            exists|detail: Seq<char>| res@ == io_debug_text(self.file@, detail),
    {
        let detail = io_error_debug(&self.error);
        describe_io_debug(self.file.as_str(), detail.as_str())
    }
}

impl Error {
    /// The error as a user is shown it.
    pub fn to_text(&self) -> (res: String)
        ensures
            match self {
                Error::IoError(e) => exists|detail: Seq<char>| res@ == io_text(e.file@, detail),
                Error::InvalidInput(message) => res@ == invalid_input_text(message@),
            },
    {
        match self {
            Error::IoError(e) => e.to_text(),
            Error::InvalidInput(message) => {
                let mut text = "Invalid input: ".to_owned();
                text.append(message.as_str());
                text
            },
        }
    }

    /// The error as a developer is shown it: the variant's name, and in
    /// round brackets what it holds.
    pub fn to_debug_text(&self) -> (res: String)
        ensures
            match self {
                Error::IoError(e) => exists|detail: Seq<char>|
                    res@ == io_variant_debug_text(io_debug_text(e.file@, detail)),
                Error::InvalidInput(message) => res@ == invalid_input_debug_text(message@),
            },
    {
        match self {
            Error::IoError(e) => {
                let inner = e.to_debug_text();
                let mut text = "IoError (".to_owned();
                text.append(inner.as_str());
                text.append(")");
                text
            },
            Error::InvalidInput(message) => {
                let quoted = quote(message.as_str());
                let mut text = "InvalidInput (".to_owned();
                text.append(quoted.as_str());
                text.append(")");
                text
            },
        }
    }
}

} // verus!
