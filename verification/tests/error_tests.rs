use std::io;

use onetime_cli::error::{describe_io, describe_io_debug};
use onetime_cli::report::{io_error_line, BOLD_START, RED_ERROR_TEXT, STYLE_END};
use onetime_cli::{err_to_text, Error, IoError};

#[test]
fn test_io_error_display() {
    let e = Error::IoError(IoError {
        file: "picture.png".to_string(),
        error: io::Error::from(io::ErrorKind::NotFound),
    });

    assert_eq!(&e.to_text(), "File: \"picture.png\"; entity not found")
}

#[test]
fn test_invalid_input_error_display() {
    let e = Error::InvalidInput("param1 is None".to_string());

    assert_eq!(&e.to_text(), "Invalid input: param1 is None")
}

#[test]
fn test_io_error_debug() {
    let e = Error::IoError(IoError {
        file: "picture.png".to_string(),
        error: io::Error::from(io::ErrorKind::NotFound),
    });

    assert_eq!(
        &e.to_debug_text(),
        "IoError (IoError { file: \"picture.png\", error: Kind(NotFound) })"
    )
}

#[test]
fn test_invalid_input_error_debug() {
    let e = Error::InvalidInput("param1 is None".to_string());

    assert_eq!(&e.to_debug_text(), "InvalidInput (\"param1 is None\")")
}

#[test]
fn test_print_err_with_io_error() {
    let e = Error::IoError(IoError {
        file: "picture.png".to_string(),
        error: io::Error::from(io::ErrorKind::NotFound),
    });

    assert_eq!(
        err_to_text(e),
        format!("{RED_ERROR_TEXT}: File: picture.png; {BOLD_START}entity not found{STYLE_END}"),
    );
}

#[test]
fn test_print_err_with_input_error() {
    let e = Error::InvalidInput("param1 is None".to_string());

    assert_eq!(err_to_text(e), format!("{RED_ERROR_TEXT}: param1 is None"));
}

#[test]
fn io_error_alone_shows_file_and_description() {
    let e = IoError {
        file: "a b.txt".to_string(),
        error: io::Error::from(io::ErrorKind::PermissionDenied),
    };
    assert_eq!(e.to_text(), "File: \"a b.txt\"; permission denied");
    assert_eq!(
        e.to_debug_text(),
        "IoError { file: \"a b.txt\", error: Kind(PermissionDenied) }"
    );
}

#[test]
fn describe_io_puts_the_parts_together() {
    assert_eq!(describe_io("f", "gone"), "File: \"f\"; gone");
    assert_eq!(describe_io("", ""), "File: \"\"; ");
    assert_eq!(
        describe_io_debug("f", "Kind(NotFound)"),
        "IoError { file: \"f\", error: Kind(NotFound) }"
    );
}

#[test]
fn debug_text_escapes_the_message() {
    let e = Error::InvalidInput("say \"hi\"\n".to_string());
    assert_eq!(e.to_debug_text(), "InvalidInput (\"say \\\"hi\\\"\\n\")");
    // the plain text leaves the message as it is
    assert_eq!(e.to_text(), "Invalid input: say \"hi\"\n");
}

#[test]
fn terminal_line_has_the_exact_escape_codes() {
    assert_eq!(RED_ERROR_TEXT, "\x1b[1;91mError\x1b[0m");
    assert_eq!(BOLD_START, "\x1b[01m");
    assert_eq!(STYLE_END, "\x1b[0m");
    assert_eq!(
        io_error_line("x.bin", "broken"),
        "\x1b[1;91mError\x1b[0m: File: x.bin; \x1b[01mbroken\x1b[0m"
    );
    assert_eq!(
        err_to_text(Error::InvalidInput(String::new())),
        "\x1b[1;91mError\x1b[0m: "
    );
}
