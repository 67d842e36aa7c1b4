//! What is made of a helper program that has run: nothing where it
//! succeeded, and where it failed a report of what it printed.

use vstd::prelude::*;
use vstd::utf8::{decode_utf8, valid_utf8};
use ansi_term::Colour::Red;
use std::str::Utf8Error;
use crate::error::{ErrorKind, KawsError, KawsResult};

verus! {

/// The error of std's UTF-8 validation.
#[verifier::external_type_specification]
#[verifier::external_body]
pub struct ExUtf8Error(Utf8Error);

/// `std::str::from_utf8`: the text that the bytes encode where they are
/// valid UTF-8, else the validation's error.
#[verifier::external_body]
fn from_utf8(bytes: &[u8]) -> (text: Result<&str, Utf8Error>)
    ensures
        match text {
            Ok(text) => valid_utf8(bytes@) && text@ == decode_utf8(bytes@),
            Err(_) => !valid_utf8(bytes@),
        },
{
    std::str::from_utf8(bytes)
}

/// The validation's error as std words it.
#[verifier::external_body]
fn utf8_error_text(error: &Utf8Error) -> (text: String) {
    format!("{}", error)
}

/// `Colour::paint` of ansi_term for `Red`, shown as text: the text between
/// the escape sequence that sets a red foreground and the one that resets.
#[verifier::external_body]
fn paint_red(text: &str) -> (painted: String)
    ensures
        painted@ == "\x1B[31m"@ + text@ + "\x1B[0m"@,
{
    Red.paint(text).to_string()
}

/// The report of a program that failed: how it was run and what it
/// printed.
pub open spec fn failure_report(command: Seq<char>, stdout: Seq<char>, stderr: Seq<char>) -> Seq<
    char,
> {
    "\nExecution of `"@ + command
        + "` failed! The output of the program are detailed below:\n\nstdout:\n"@ + stdout
        + "\n\nstderr:\n"@ + stderr + "\n"@
}

/// What a finished program amounts to. `command` is the program with its
/// arguments as shown to the operator.
///
/// Nothing is reported of a program that succeeded. Of one that failed,
/// what it printed is reported in red; where what it printed is not UTF-8,
/// that is the failure.
pub fn child_outcome(success: bool, command: &str, stdout: &[u8], stderr: &[u8]) -> (outcome:
    KawsResult)
    ensures
        success ==> outcome matches Ok(None),
        !success ==> outcome is Err,
        !success && !(valid_utf8(stdout@) && valid_utf8(stderr@)) ==> outcome->Err_0.kind
            == ErrorKind::Encoding,
        !success && valid_utf8(stdout@) && valid_utf8(stderr@) ==> outcome->Err_0.kind
            == ErrorKind::Other && outcome->Err_0.message@ == "\x1B[31m"@ + failure_report(
            command@,
            decode_utf8(stdout@),
            decode_utf8(stderr@),
        ) + "\x1B[0m"@,
{
    if success {
        return Ok(None);
    }
    let out = match from_utf8(stdout) {
        Ok(text) => text,
        Err(error) => {
            return Err(KawsError::of_kind(ErrorKind::Encoding, utf8_error_text(&error)));
        },
    };
    let err = match from_utf8(stderr) {
        Ok(text) => text,
        Err(error) => {
            return Err(KawsError::of_kind(ErrorKind::Encoding, utf8_error_text(&error)));
        },
    };
    let mut report = String::from_str("\nExecution of `");
    report.append(command);
    report.append("` failed! The output of the program are detailed below:\n\nstdout:\n");
    report.append(out);
    report.append("\n\nstderr:\n");
    report.append(err);
    report.append("\n");
    Err(KawsError::new(paint_red(report.as_str())))
}

} // verus!
