//! The decisions of the command-line front end: where the input comes
//! from, and how a failure is reported.
use vstd::prelude::*;
use vstd::string::{StrSliceExecFns, StringExecFns};

verus! {

/// The text `-`, which names standard input.
pub open spec fn stdin_marker() -> Seq<char> {
    seq!['-']
}

/// What separates the parts of a diagnostic.
pub open spec fn separator() -> Seq<char> {
    seq![':', ' ']
}

/// Whether `s` is `-`.
fn is_stdin_marker(s: &str) -> (r: bool)
    ensures
        r == (s@ == stdin_marker()),
{
    let r = s.unicode_len() == 1 && s.get_char(0) == '-';
    assert(r ==> s@ =~= stdin_marker());
    r
}

/// The file to read the input from: the given path, unless it is absent or
/// `-`, which both mean standard input.
pub fn input_file(input: Option<&str>) -> (r: Option<&str>)
    ensures
        r == match input {
            Some(path) => if path@ == stdin_marker() {
                None
            } else {
                Some(path)
            },
            None => None,
        },
{
    match input {
        Some(path) => if is_stdin_marker(path) {
            None
        } else {
            Some(path)
        },
        None => None,
    }
}

/// How the input is named in diagnostics: its path, or `-` for standard input.
pub fn input_source(input: Option<&str>) -> (r: &str)
    ensures
        r@ == match input {
            Some(path) => path@,
            None => stdin_marker(),
        },
{
    match input {
        Some(path) => path,
        None => {
            proof {
                reveal_strlit("-");
            }
            "-"
        },
    }
}

/// The line that reports a failure: `program: message` for standard input,
/// `program: source: message` for a file.
pub fn diagnostic(program: &str, source: &str, message: &str) -> (r: String)
    ensures
        r@ == if source@ == stdin_marker() {
            program@ + separator() + message@
        } else {
            program@ + separator() + source@ + separator() + message@
        },
{
    proof {
        reveal_strlit(": ");
    }
    let mut line = String::from_str(program);
    line.append(": ");
    if !is_stdin_marker(source) {
        line.append(source);
        line.append(": ");
    }
    line.append(message);
    line
}

} // verus!
