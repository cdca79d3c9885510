//! Errors as a terminal shows them.

use vstd::prelude::*;
use vstd::string::StringExecFns;

use crate::error::{io_error_description, Error};

verus! {

/// The word `Error` in bold red.
pub const RED_ERROR_TEXT: &'static str = "\x1b[1;91mError\x1b[0m";

/// Switches the terminal to bold.
pub const BOLD_START: &'static str = "\x1b[01m";

/// Switches the terminal back to its plain style.
pub const STYLE_END: &'static str = "\x1b[0m";

/// The line for an I/O failure on `file` that the system describes as
/// `detail`: the description stands out in bold.
pub open spec fn io_line(file: Seq<char>, detail: Seq<char>) -> Seq<char> {
    RED_ERROR_TEXT@ + ": File: "@ + file + "; "@ + BOLD_START@ + detail + STYLE_END@
}

/// The line for invalid input with the given message.
pub open spec fn input_line(message: Seq<char>) -> Seq<char> {
    RED_ERROR_TEXT@ + ": "@ + message
}

/// The line for an I/O failure on `file` that the system describes as
/// `detail`.
pub fn io_error_line(file: &str, detail: &str) -> (res: String)
    ensures
        res@ == io_line(file@, detail@),
{
    let mut line = RED_ERROR_TEXT.to_owned();
    line.append(": File: ");
    line.append(file);
    line.append("; ");
    line.append(BOLD_START);
    line.append(detail);
    line.append(STYLE_END);
    line
}

/// The line that a terminal shows for an error.
pub fn err_to_text(e: Error) -> (res: String)
    ensures
        match e {
            Error::IoError(io) => exists|detail: Seq<char>| res@ == io_line(io.file@, detail),
            Error::InvalidInput(message) => res@ == input_line(message@),
        },
{
    match e {
        Error::IoError(io) => {
            let detail = io_error_description(&io.error);
            io_error_line(io.file.as_str(), detail.as_str())
        },
        Error::InvalidInput(message) => {
            let mut line = RED_ERROR_TEXT.to_owned();
            line.append(": ");
            line.append(message.as_str());
            line
        },
    }
}

} // verus!
