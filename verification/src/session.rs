//! The read-evaluate cycle: what the shell does with each attempt to read a
//! line, and the state it is in afterwards.

use crate::dispatch::Signal;
use crate::text::{
    all_space, lemma_blank_line, lemma_tokens_of_trimmed, tokenize, tokens_of, trim, trimmed,
    views,
};
use vstd::prelude::*;

verus! {

/// The states of the cycle.
#[derive(Clone, Copy, Debug, PartialEq, Eq, Structural)]
pub enum LoopState {
    /// Waiting for a line.
    Prompting,
    /// Running a command.
    Executing,
    /// Done: the history is to be saved and the shell ends.
    Terminated,
}

/// How an attempt to read a line ended.
#[derive(Clone, Debug, PartialEq, Eq)]
pub enum ReadEvent {
    /// A line was read.
    Line(String),
    /// The user cancelled the line.
    Interrupted,
    /// There is no more input.
    EndOfInput,
    /// Reading failed, with the reason.
    Failed(String),
}

/// What to do after an attempt to read a line.
#[derive(Clone, Debug, PartialEq, Eq)]
pub enum Turn {
    /// The line was blank: nothing is recorded and nothing is run.
    Skip,
    /// Record `entry` in the history and run the command made of `tokens`.
    Run { entry: String, tokens: Vec<String> },
    /// Acknowledge the cancelled line.
    Acknowledge,
    /// Say goodbye.
    Leave,
    /// Report that reading failed, with the reason.
    Abort(String),
}

/// Whether `turn` is what follows the read event `event`.
pub open spec fn follows(turn: Turn, event: ReadEvent) -> bool {
    match event {
        ReadEvent::Line(line) => if all_space(line@) {
            turn is Skip
        } else {
            &&& turn is Run
            &&& turn->entry@ == trimmed(line@)
            &&& views(turn->tokens@) == tokens_of(line@)
            &&& turn->tokens@.len() > 0
        },
        ReadEvent::Interrupted => turn is Acknowledge,
        ReadEvent::EndOfInput => turn is Leave,
        ReadEvent::Failed(reason) => turn == Turn::Abort(reason),
    }
}

/// The state that the cycle is in after a turn.
pub open spec fn state_after(turn: Turn) -> LoopState {
    match turn {
        Turn::Skip => LoopState::Prompting,
        Turn::Run { .. } => LoopState::Executing,
        Turn::Acknowledge => LoopState::Prompting,
        Turn::Leave => LoopState::Terminated,
        Turn::Abort(_) => LoopState::Terminated,
    }
}

/// The state that the cycle is in after a command that gave `signal`.
pub open spec fn state_after_signal(signal: Signal) -> LoopState {
    match signal {
        Signal::Continue => LoopState::Prompting,
        Signal::Exit => LoopState::Terminated,
    }
}

/// Reading ends the cycle exactly at the end of the input and where reading
/// fails; a command is run exactly for a line that is not blank.
pub proof fn lemma_read_transitions(turn: Turn, event: ReadEvent)
    requires
        follows(turn, event),
    ensures
        state_after(turn) == LoopState::Terminated <==> event is EndOfInput || event is Failed,
        state_after(turn) == LoopState::Executing <==> event is Line && !all_space(event->Line_0@),
{
}

/// Decides what follows an attempt to read a line. A line is trimmed; a
/// blank one is skipped, any other is recorded as trimmed and split into the
/// tokens of a command.
pub fn on_read(event: ReadEvent) -> (turn: Turn)
    ensures
        follows(turn, event),
{
    match event {
        ReadEvent::Line(line) => {
            let entry: &str = trim(line.as_str());
            proof {
                lemma_blank_line(line@);
                lemma_tokens_of_trimmed(line@);
            }
            if entry.unicode_len() == 0 {
                Turn::Skip
            } else {
                let tokens = tokenize(entry);
                assert(views(tokens@).len() == tokens@.len());
                Turn::Run { entry: entry.to_owned(), tokens }
            }
        },
        ReadEvent::Interrupted => Turn::Acknowledge,
        ReadEvent::EndOfInput => Turn::Leave,
        ReadEvent::Failed(reason) => Turn::Abort(reason),
    }
}

/// The state of the cycle after a turn.
pub fn next_state(turn: &Turn) -> (state: LoopState)
    ensures
        state == state_after(*turn),
{
    match turn {
        Turn::Skip => LoopState::Prompting,
        Turn::Run { .. } => LoopState::Executing,
        Turn::Acknowledge => LoopState::Prompting,
        Turn::Leave => LoopState::Terminated,
        Turn::Abort(_) => LoopState::Terminated,
    }
}

/// The state of the cycle after a command: a command that gave the signal
/// to exit ends it, any other leads back to the prompt.
pub fn after_command(signal: Signal) -> (state: LoopState)
    ensures
        state == state_after_signal(signal),
{
    match signal {
        Signal::Continue => LoopState::Prompting,
        Signal::Exit => LoopState::Terminated,
    }
}

} // verus!
