//! One iteration of the loop: prompt, read classification, evaluation,
//! and the text each iteration writes.

use vstd::prelude::*;

verus! {

/// The fixed prompt written to the output stream before every read.
pub open spec fn prompt() -> Seq<char> {
    "user> "@
}

/// A line as read from the stream, with its trailing terminator removed:
/// a final `"\r\n"` or `"\n"` is dropped, anything else is kept as is.
pub open spec fn line_content(raw: Seq<char>) -> Seq<char> {
    if raw.len() >= 2 && raw[raw.len() - 1] == '\n' && raw[raw.len() - 2] == '\r' {
        raw.subrange(0, raw.len() - 2)
    } else if raw.len() >= 1 && raw[raw.len() - 1] == '\n' {
        raw.subrange(0, raw.len() - 1)
    } else {
        raw
    }
}

/// What the printer emits for an evaluated line: the line followed by a
/// line terminator.
pub open spec fn echo_of(content: Seq<char>) -> Seq<char> {
    content.push('\n')
}

/// The report written to the error stream for an input-stream failure.
pub open spec fn error_report(description: Seq<char>) -> Seq<char> {
    "error: "@ + description
}

/// The evaluation step: the identity transform, kept as the extension point
/// where a real evaluator would go.
pub fn eval(s: &str) -> (r: String)
    ensures
        r@ == s@,
{
    s.to_owned()
}

/// The prompt as an owned string.
pub fn prompt_text() -> (r: String)
    ensures
        r@ == prompt(),
{
    "user> ".to_owned()
}

/// Removes the trailing line terminator, if any, from a raw line.
pub fn line_of(raw: &str) -> (r: String)
    ensures
        r@ == line_content(raw@),
{
    let n = raw.unicode_len();
    if n >= 2 && raw.get_char(n - 1) == '\n' && raw.get_char(n - 2) == '\r' {
        raw.substring_char(0, n - 2).to_owned()
    } else if n >= 1 && raw.get_char(n - 1) == '\n' {
        raw.substring_char(0, n - 1).to_owned()
    } else {
        raw.to_owned()
    }
}

/// Everything one successful iteration writes to the output stream after its
/// read: the line's content, passed through [`eval`], with a terminator
/// appended.
pub fn respond(raw: &str) -> (r: String)
    ensures
        r@ == echo_of(line_content(raw@)),
{
    let content = line_of(raw);
    let mut r = eval(content.as_str());
    r.append("\n");
    proof {
        reveal_strlit("\n");
        assert(r@ =~= echo_of(line_content(raw@)));
    }
    r
}

/// The error-stream report for a failure description.
pub fn error_text(description: &str) -> (r: String)
    ensures
        r@ == error_report(description@),
{
    let mut r = "error: ".to_owned();
    r.append(description);
    r
}

/// What one blocking read of the input stream yielded.
#[derive(Debug, PartialEq, Eq)]
pub enum ReadEvent {
    /// A full line was available; it still carries whatever terminator the
    /// read primitive left on it.
    Line(String),
    /// The stream closed cleanly with no further data.
    EndOfInput,
    /// The stream reported a failure other than clean closure; the payload
    /// is its human-readable description.
    Failed(String),
}

/// What the loop does with the event a read produced.
#[derive(Debug, PartialEq, Eq)]
pub enum Action {
    /// Write this text to the output stream, then prompt and read again.
    Echo(String),
    /// End-of-input: terminate successfully.
    Halt,
    /// Write this report to the error stream, then terminate successfully
    /// (an input failure is treated like end-of-input).
    Report(String),
}

/// Turns the byte count of a read, together with the buffer it filled, into
/// the event the loop acts on: a read of zero bytes is a clean end of the
/// stream, anything else is a line.
pub fn classify_read(n_bytes: usize, buf: String) -> (ev: ReadEvent)
    ensures
        n_bytes == 0 ==> ev == ReadEvent::EndOfInput,
        n_bytes != 0 ==> ev == ReadEvent::Line(buf),
{
    if n_bytes == 0 {
        ReadEvent::EndOfInput
    } else {
        ReadEvent::Line(buf)
    }
}

/// The decision the loop takes after each read: echo a line and continue,
/// halt on end-of-input, or report a failure and halt.
pub fn step(ev: ReadEvent) -> (a: Action)
    ensures
        ev matches ReadEvent::Line(raw) ==> a matches Action::Echo(e) && e@ == echo_of(
            line_content(raw@),
        ),
        ev == ReadEvent::EndOfInput ==> a == Action::Halt,
        ev matches ReadEvent::Failed(d) ==> a matches Action::Report(r) && r@ == error_report(d@),
{
    match ev {
        ReadEvent::Line(raw) => Action::Echo(respond(raw.as_str())),
        ReadEvent::EndOfInput => Action::Halt,
        ReadEvent::Failed(description) => Action::Report(error_text(description.as_str())),
    }
}

} // verus!
