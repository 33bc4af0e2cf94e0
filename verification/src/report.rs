//! What the user is told about the run of an outside program, and what the
//! run means for the build.

use vstd::prelude::*;
use vstd::string::*;
use crate::text::concat2;

verus! {

/// How a message is shown.
#[derive(Debug, Clone, Copy, PartialEq, Eq, Structural)]
pub enum Level {
    Info,
    Success,
    Failure,
}

/// One message to the user.
#[derive(Debug, Clone)]
pub struct Message {
    pub level: Level,
    pub text: String,
}

/// How the run of a program ended.
#[derive(Debug, Clone)]
pub struct Outcome {
    pub program: String,
    /// The exit status as the system words it.
    pub status: String,
    pub success: bool,
    pub stdout: String,
    pub stderr: String,
}

/// A message as plain text.
pub open spec fn message_views(messages: Seq<Message>) -> Seq<(Level, Seq<char>)> {
    Seq::new(messages.len(), |i: int| (messages[i].level, messages[i].text@))
}

/// The line that tells how a program ended.
pub open spec fn exit_line(program: Seq<char>, status: Seq<char>) -> Seq<char> {
    program + " exited with "@ + status
}

/// The error of a program that could not be started.
pub open spec fn spawn_error(program: Seq<char>, error: Seq<char>) -> Seq<char> {
    "Error trying to execute "@ + program + "! "@ + error
}

/// The messages about a run whose captured stream is `captured`: after a
/// success, the stream where `always` is set or the stream is not empty,
/// then the exit line; after a failure, the exit line alone.
pub open spec fn run_messages(o: &Outcome, captured: Seq<char>, always: bool) -> Seq<
    (Level, Seq<char>),
> {
    if o.success {
        if always || captured.len() > 0 {
            seq![
                (Level::Info, captured + "\n"@),
                (Level::Success, exit_line(o.program@, o.status@)),
            ]
        } else {
            seq![(Level::Success, exit_line(o.program@, o.status@))]
        }
    } else {
        seq![(Level::Failure, exit_line(o.program@, o.status@))]
    }
}

/// The error of a program that could not be started.
pub fn spawn_failure(program: &str, error: &str) -> (r: String)
    ensures
        r@ == spawn_error(program@, error@),
{
    String::from_str("Error trying to execute ").concat(program).concat("! ").concat(error)
}

/// The report on a run, given its captured stream.
fn report_with(o: &Outcome, captured: &str, always: bool) -> (r: (Vec<Message>, Result<(), String>))
    ensures
        message_views(r.0@) == run_messages(o, captured@, always),
        match r.1 {
            Ok(()) => o.success,
            Err(detail) => !o.success && detail@ == captured@,
        },
{
    let line = String::from_str(o.program.as_str()).concat(" exited with ").concat(
        o.status.as_str(),
    );
    let mut messages: Vec<Message> = Vec::new();
    if o.success {
        if always || captured.unicode_len() > 0 {
            messages.push(Message { level: Level::Info, text: concat2(captured, "\n") });
        }
        messages.push(Message { level: Level::Success, text: line });
        assert(message_views(messages@) =~= run_messages(o, captured@, always));
        (messages, Ok(()))
    } else {
        messages.push(Message { level: Level::Failure, text: line });
        assert(message_views(messages@) =~= run_messages(o, captured@, always));
        (messages, Err(String::from_str(captured)))
    }
}

/// The report on the run of a GCC-style tool: what it wrote to its error
/// stream is shown after a success if there is any, and is the detail of
/// the failure after a failure.
pub fn report_run(o: &Outcome) -> (r: (Vec<Message>, Result<(), String>))
    ensures
        message_views(r.0@) == run_messages(o, o.stderr@, false),
        match r.1 {
            Ok(()) => o.success,
            Err(detail) => !o.success && detail@ == o.stderr@,
        },
{
    report_with(o, o.stderr.as_str(), false)
}

/// The report on the run of a tool of the vendor toolchain, which writes
/// its diagnostics to its output stream: the stream is shown after every
/// success, and is the detail of the failure after a failure.
pub fn report_vendor_run(o: &Outcome) -> (r: (Vec<Message>, Result<(), String>))
    ensures
        message_views(r.0@) == run_messages(o, o.stdout@, true),
        match r.1 {
            Ok(()) => o.success,
            Err(detail) => !o.success && detail@ == o.stdout@,
        },
{
    report_with(o, o.stdout.as_str(), true)
}

} // verus!
