//! What the shell tells the user: the wording of its messages, and which
//! stream each goes to.

use crate::dispatch::{Effect, Step};
use crate::session::Turn;
use vstd::prelude::*;
use vstd::string::*;

verus! {

/// Where a message goes.
#[derive(Clone, Copy, Debug, PartialEq, Eq, Structural)]
pub enum Stream {
    /// Standard output.
    Standard,
    /// The diagnostic stream.
    Diagnostic,
}

/// A line of text for one of the streams.
#[derive(Clone, Debug, PartialEq, Eq)]
pub struct Message {
    pub stream: Stream,
    pub text: String,
}

/// A message over plain characters; `None` where nothing is said.
pub open spec fn said(m: Option<Message>) -> Option<(Stream, Seq<char>)> {
    match m {
        Some(m) => Some((m.stream, m.text@)),
        None => None,
    }
}

/// How running a program went.
#[derive(Clone, Debug, PartialEq, Eq)]
pub enum SpawnResult {
    /// The program ran and ended.
    Finished,
    /// The program was not found.
    NotFound,
    /// The program could not be started for another reason, which is given.
    Refused(String),
    /// Waiting for the program failed, with the reason.
    WaitFailed(String),
}

/// How changing the working directory went.
#[derive(Clone, Debug, PartialEq, Eq)]
pub enum ChangeResult {
    /// It was changed, and this is the new directory where it could be read.
    Moved(Option<String>),
    /// It was not changed, for the reason given.
    Failed(String),
}

/// The message that stands for an effect which is nothing but a message;
/// `None` for an effect that asks for more.
pub open spec fn message_for(step: Step) -> Option<(Stream, Seq<char>)> {
    match step {
        Step::Farewell => Some((Stream::Standard, "Exiting Sfsh. Goodbye!"@)),
        Step::PrintLine(s) => Some((Stream::Standard, s)),
        Step::PrintValueType(kind) => Some(
            (Stream::Standard, "Lua function returned a non-string value of type: "@ + kind),
        ),
        Step::ReportTooManyArguments => Some((Stream::Diagnostic, "sfsh: cd: too many arguments"@)),
        Step::ReportHomeNotFound => Some(
            (
                Stream::Diagnostic,
                "sfsh: Home directory not found. Please set the HOME environment variable."@,
            ),
        ),
        Step::ReportBadFormat => Some(
            (Stream::Diagnostic, "Invalid Lua command format. Use 'module.function [args]'."@),
        ),
        Step::ReportScriptError(reason) => Some(
            (Stream::Diagnostic, "sfsh: Lua command error: "@ + reason),
        ),
        Step::ChangeToHome(_) => None,
        Step::ChangeTo(_) => None,
        Step::Spawn { .. } => None,
    }
}

/// What is said after a program was run: nothing where it ran and ended, a
/// diagnostic otherwise, one wording for a program that was not found and
/// another for every other failure to start it.
pub open spec fn spawn_report(program: Seq<char>, result: SpawnResult) -> Option<
    (Stream, Seq<char>),
> {
    match result {
        SpawnResult::Finished => None,
        SpawnResult::NotFound => Some((Stream::Diagnostic, "sfsh: Command not found: "@ + program)),
        SpawnResult::Refused(reason) => Some(
            (
                Stream::Diagnostic,
                "sfsh: Error executing command '"@ + program + "': "@ + reason@,
            ),
        ),
        SpawnResult::WaitFailed(reason) => Some(
            (Stream::Diagnostic, "sfsh: Failed to wait for command: "@ + reason@),
        ),
    }
}

/// What is said after a change of the working directory to `target`, which
/// was the home directory if `to_home` holds.
pub open spec fn change_report(to_home: bool, target: Seq<char>, result: ChangeResult) -> Option<
    (Stream, Seq<char>),
> {
    match result {
        ChangeResult::Moved(Some(now)) => Some((Stream::Standard, "Changed directory to: "@ + now@)),
        ChangeResult::Moved(None) => None,
        ChangeResult::Failed(reason) => if to_home {
            Some((Stream::Diagnostic, "sfsh: Failed to change to home directory: "@ + reason@))
        } else {
            Some(
                (
                    Stream::Diagnostic,
                    "sfsh: Failed to change directory to '"@ + target + "': "@ + reason@,
                ),
            )
        },
    }
}

/// What is said for a turn of the read-evaluate cycle.
pub open spec fn turn_report(turn: Turn) -> Option<(Stream, Seq<char>)> {
    match turn {
        Turn::Skip => None,
        Turn::Run { .. } => None,
        Turn::Acknowledge => Some((Stream::Standard, "^C"@)),
        Turn::Leave => Some((Stream::Standard, "Exiting Sfsh. Goodbye!"@)),
        Turn::Abort(reason) => Some((Stream::Diagnostic, "Error reading line: "@ + reason@)),
    }
}

/// The stream of a message, if there is a message.
pub open spec fn stream_of(m: Option<(Stream, Seq<char>)>) -> Option<Stream> {
    match m {
        Some((stream, _)) => Some(stream),
        None => None,
    }
}

/// Every effect that reports a failure is a message on the diagnostic
/// stream, and no other effect is.
pub proof fn lemma_reports_are_diagnostics(step: Step)
    ensures
        (step is ReportTooManyArguments || step is ReportHomeNotFound || step is ReportBadFormat
            || step is ReportScriptError) <==> stream_of(message_for(step)) == Some(
            Stream::Diagnostic,
        ),
{
}

/// A program that could not be run, or not be waited for, always gets a
/// diagnostic, and a program that was not found gets one of its own wording.
pub proof fn lemma_spawn_failures_are_reported(program: Seq<char>, result: SpawnResult)
    ensures
        spawn_report(program, result) is None <==> result is Finished,
        !(result is Finished) ==> stream_of(spawn_report(program, result)) == Some(
            Stream::Diagnostic,
        ),
{
}

fn standard(text: String) -> (m: Option<Message>)
    ensures
        said(m) == Some((Stream::Standard, text@)),
{
    Some(Message { stream: Stream::Standard, text })
}

fn diagnostic(text: String) -> (m: Option<Message>)
    ensures
        said(m) == Some((Stream::Diagnostic, text@)),
{
    Some(Message { stream: Stream::Diagnostic, text })
}

fn join(head: &str, tail: &str) -> (text: String)
    ensures
        text@ == head@ + tail@,
{
    let mut text: String = head.to_owned();
    text.append(tail);
    text
}

fn quoted(head: &str, name: &str, tail: &str) -> (text: String)
    ensures
        text@ == head@ + name@ + "': "@ + tail@,
{
    let mut text: String = head.to_owned();
    text.append(name);
    text.append("': ");
    text.append(tail);
    text
}

/// The message that stands for an effect, if the effect is a message.
pub fn message_of(effect: &Effect) -> (m: Option<Message>)
    ensures
        said(m) == message_for(effect@),
{
    match effect {
        Effect::Farewell => standard("Exiting Sfsh. Goodbye!".to_owned()),
        Effect::PrintLine(s) => standard(s.clone()),
        Effect::PrintValueType(kind) => standard(
            join("Lua function returned a non-string value of type: ", kind.as_str()),
        ),
        Effect::ReportTooManyArguments => diagnostic("sfsh: cd: too many arguments".to_owned()),
        Effect::ReportHomeNotFound => diagnostic(
            "sfsh: Home directory not found. Please set the HOME environment variable.".to_owned(),
        ),
        Effect::ReportBadFormat => diagnostic(
            "Invalid Lua command format. Use 'module.function [args]'.".to_owned(),
        ),
        Effect::ReportScriptError(reason) => diagnostic(
            join("sfsh: Lua command error: ", reason.as_str()),
        ),
        Effect::ChangeToHome(_) => None,
        Effect::ChangeTo(_) => None,
        Effect::Spawn { .. } => None,
    }
}

/// The message after a program was run.
pub fn spawn_message(program: &str, result: &SpawnResult) -> (m: Option<Message>)
    ensures
        said(m) == spawn_report(program@, *result),
{
    match result {
        SpawnResult::Finished => None,
        SpawnResult::NotFound => diagnostic(join("sfsh: Command not found: ", program)),
        SpawnResult::Refused(reason) => diagnostic(
            quoted("sfsh: Error executing command '", program, reason.as_str()),
        ),
        SpawnResult::WaitFailed(reason) => diagnostic(
            join("sfsh: Failed to wait for command: ", reason.as_str()),
        ),
    }
}

/// The message after a change of the working directory.
pub fn change_message(to_home: bool, target: &str, result: &ChangeResult) -> (m: Option<Message>)
    ensures
        said(m) == change_report(to_home, target@, *result),
{
    match result {
        ChangeResult::Moved(Some(now)) => standard(join("Changed directory to: ", now.as_str())),
        ChangeResult::Moved(None) => None,
        ChangeResult::Failed(reason) => if to_home {
            diagnostic(join("sfsh: Failed to change to home directory: ", reason.as_str()))
        } else {
            diagnostic(quoted("sfsh: Failed to change directory to '", target, reason.as_str()))
        },
    }
}

/// The message for a turn of the read-evaluate cycle.
pub fn turn_message(turn: &Turn) -> (m: Option<Message>)
    ensures
        said(m) == turn_report(*turn),
{
    match turn {
        Turn::Skip => None,
        Turn::Run { .. } => None,
        Turn::Acknowledge => standard("^C".to_owned()),
        Turn::Leave => standard("Exiting Sfsh. Goodbye!".to_owned()),
        Turn::Abort(reason) => diagnostic(join("Error reading line: ", reason.as_str())),
    }
}

} // verus!
