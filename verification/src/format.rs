//! The wording of the messages that the tool prints, without their colours.

use vstd::prelude::*;
use vstd::string::*;
use crate::report::Level;
use crate::text::concat2;

verus! {

/// A way to word a message.
pub trait Format {
    /// The message as it is printed.
    fn format(&self, input: &str) -> String;
}

/// The message as it is.
#[derive(Debug, Clone, Copy)]
pub struct Default {}

/// The message as a piece of information.
#[derive(Debug, Clone, Copy)]
pub struct Info {}

/// The message as a success.
#[derive(Debug, Clone, Copy)]
pub struct Success {}

/// The message as an error.
#[derive(Debug, Clone, Copy)]
pub struct Failure {}

/// The message as a warning.
#[derive(Debug, Clone, Copy)]
pub struct Warning {}

/// The message as a question.
#[derive(Debug, Clone, Copy)]
pub struct Question {}

impl Format for Default {
    fn format(&self, input: &str) -> (r: String)
        ensures
            r@ == input@,
    {
        String::from_str(input)
    }
}

impl Format for Info {
    fn format(&self, input: &str) -> (r: String)
        ensures
            r@ == "info: "@ + input@,
    {
        concat2("info: ", input)
    }
}

impl Format for Success {
    fn format(&self, input: &str) -> (r: String)
        ensures
            r@ == "success: "@ + input@,
    {
        concat2("success: ", input)
    }
}

impl Format for Failure {
    fn format(&self, input: &str) -> (r: String)
        ensures
            r@ == "error: "@ + input@,
    {
        concat2("error: ", input)
    }
}

impl Format for Warning {
    fn format(&self, input: &str) -> (r: String)
        ensures
            r@ == "warning: "@ + input@,
    {
        concat2("warning: ", input)
    }
}

impl Format for Question {
    fn format(&self, input: &str) -> (r: String)
        ensures
            r@ == "question: "@ + input@,
    {
        concat2("question: ", input)
    }
}

/// What precedes a message of a level.
pub open spec fn label(level: Level) -> Seq<char> {
    match level {
        Level::Info => "info: "@,
        Level::Success => "success: "@,
        Level::Failure => "error: "@,
    }
}

/// A message of a level as it is printed.
pub fn format_message(level: Level, input: &str) -> (r: String)
    ensures
        r@ == label(level) + input@,
{
    match level {
        Level::Info => Info {}.format(input),
        Level::Success => Success {}.format(input),
        Level::Failure => Failure {}.format(input),
    }
}

} // verus!
