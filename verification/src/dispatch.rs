//! What the shell does for one command line: the effects to carry out, in
//! order, and whether the shell goes on afterwards.

use crate::command::{
    arguments, cd_word, classify, decide, exit_word, lemma_keywords_have_no_dot, occurrences,
    Decision, Plan,
};
use crate::engine::{call_scripted, Reply};
use crate::text::{option_view, views};
use vstd::prelude::*;

verus! {

/// Whether the shell goes on after a command.
#[derive(Clone, Copy, Debug, PartialEq, Eq, Structural)]
pub enum Signal {
    Continue,
    Exit,
}

/// One thing for the shell's surroundings to do.
#[derive(Clone, Debug, PartialEq, Eq)]
pub enum Effect {
    /// Say goodbye on standard output.
    Farewell,
    /// Print the text and a line end on standard output.
    PrintLine(String),
    /// Say on standard output that a scripted function returned a value that
    /// is no string, naming the value's type.
    PrintValueType(String),
    /// Report that the directory change got more than one argument.
    ReportTooManyArguments,
    /// Report that the home directory is not known.
    ReportHomeNotFound,
    /// Report that the command word is no `module.function`.
    ReportBadFormat,
    /// Report that the scripted call failed, with the interpreter's message.
    ReportScriptError(String),
    /// Change the working directory to the home directory, which is given.
    ChangeToHome(String),
    /// Change the working directory to the given path.
    ChangeTo(String),
    /// Run a program with arguments, and wait for it.
    Spawn { program: String, args: Vec<String> },
}

/// An effect over plain sequences of characters.
pub enum Step {
    Farewell,
    PrintLine(Seq<char>),
    PrintValueType(Seq<char>),
    ReportTooManyArguments,
    ReportHomeNotFound,
    ReportBadFormat,
    ReportScriptError(Seq<char>),
    ChangeToHome(Seq<char>),
    ChangeTo(Seq<char>),
    Spawn { program: Seq<char>, args: Seq<Seq<char>> },
}

impl View for Effect {
    type V = Step;

    open spec fn view(&self) -> Step {
        match self {
            Effect::Farewell => Step::Farewell,
            Effect::PrintLine(s) => Step::PrintLine(s@),
            Effect::PrintValueType(s) => Step::PrintValueType(s@),
            Effect::ReportTooManyArguments => Step::ReportTooManyArguments,
            Effect::ReportHomeNotFound => Step::ReportHomeNotFound,
            Effect::ReportBadFormat => Step::ReportBadFormat,
            Effect::ReportScriptError(s) => Step::ReportScriptError(s@),
            Effect::ChangeToHome(s) => Step::ChangeToHome(s@),
            Effect::ChangeTo(s) => Step::ChangeTo(s@),
            Effect::Spawn { program, args } => Step::Spawn { program: program@, args: views(args@) },
        }
    }
}

/// What one command line comes to.
#[derive(Clone, Debug, PartialEq, Eq)]
pub struct Outcome {
    /// Whether the shell goes on.
    pub signal: Signal,
    /// What is to be done, in this order.
    pub effects: Vec<Effect>,
}

/// An outcome over plain sequences.
pub struct Course {
    pub signal: Signal,
    pub steps: Seq<Step>,
}

impl View for Outcome {
    type V = Course;

    open spec fn view(&self) -> Course {
        Course { signal: self.signal, steps: Seq::new(self.effects@.len(), |i: int| self.effects@[i]@) }
    }
}

/// The step of a directory change with the given arguments.
pub open spec fn change_step(args: Seq<Seq<char>>, home: Option<Seq<char>>) -> Step {
    if args.len() == 0 {
        match home {
            Some(h) => Step::ChangeToHome(h),
            None => Step::ReportHomeNotFound,
        }
    } else if args.len() == 1 {
        Step::ChangeTo(args[0])
    } else {
        Step::ReportTooManyArguments
    }
}

/// What a plan comes to that needs no scripted call. A scripted call has no
/// course of its own here: what it comes to depends on the interpreter's reply.
pub open spec fn direct_course(plan: Plan, home: Option<Seq<char>>) -> Course {
    match plan {
        Plan::Exit => Course { signal: Signal::Exit, steps: seq![Step::Farewell] },
        Plan::ChangeDirectory { args } => Course {
            signal: Signal::Continue,
            steps: seq![change_step(args, home)],
        },
        Plan::ExternalProcess { program, args } => Course {
            signal: Signal::Continue,
            steps: seq![Step::Spawn { program, args }],
        },
        Plan::Malformed => Course { signal: Signal::Continue, steps: seq![Step::ReportBadFormat] },
        Plan::ScriptedCall { .. } => Course { signal: Signal::Continue, steps: Seq::empty() },
    }
}

/// What a scripted call comes to, given the interpreter's reply. A string is
/// printed, no value prints nothing, another value has its type announced;
/// a failure is reported, and then all the tokens are run as a program.
pub open spec fn settled_course(tokens: Seq<Seq<char>>, reply: Reply) -> Course
    recommends
        tokens.len() > 0,
{
    Course {
        signal: Signal::Continue,
        steps: match reply {
            Reply::Nothing => Seq::empty(),
            Reply::Text(s) => seq![Step::PrintLine(s@)],
            Reply::Other(kind) => seq![Step::PrintValueType(kind@)],
            Reply::Failed(message) => seq![
                Step::ReportScriptError(message@),
                Step::Spawn { program: tokens[0], args: tokens.skip(1) },
            ],
        },
    }
}

/// What a command line comes to, where the interpreter's reply to a scripted
/// call is `reply`. For every other plan the reply plays no part.
pub open spec fn course_of(tokens: Seq<Seq<char>>, home: Option<Seq<char>>, reply: Reply) -> Course
    recommends
        tokens.len() > 0,
{
    match decide(tokens) {
        Plan::ScriptedCall { .. } => settled_course(tokens, reply),
        plan => direct_course(plan, home),
    }
}

/// The exit keyword ends the shell, whatever follows it and whatever the
/// interpreter would say.
pub proof fn lemma_exit_ends_the_shell(
    tokens: Seq<Seq<char>>,
    home: Option<Seq<char>>,
    reply: Reply,
)
    requires
        tokens.len() > 0,
        tokens[0] == exit_word(),
    ensures
        course_of(tokens, home, reply) == (Course {
            signal: Signal::Exit,
            steps: seq![Step::Farewell],
        }),
{
}

/// A directory change without an argument, where no home directory is known,
/// reports that and changes nothing.
pub proof fn lemma_change_without_home(tokens: Seq<Seq<char>>, reply: Reply)
    requires
        tokens.len() == 1,
        tokens[0] == cd_word(),
    ensures
        course_of(tokens, None, reply) == (Course {
            signal: Signal::Continue,
            steps: seq![Step::ReportHomeNotFound],
        }),
{
    assert(cd_word().len() != exit_word().len());
}

/// A directory change with more than one argument reports that and changes
/// nothing.
pub proof fn lemma_change_with_many_arguments(
    tokens: Seq<Seq<char>>,
    home: Option<Seq<char>>,
    reply: Reply,
)
    requires
        tokens.len() > 2,
        tokens[0] == cd_word(),
    ensures
        course_of(tokens, home, reply) == (Course {
            signal: Signal::Continue,
            steps: seq![Step::ReportTooManyArguments],
        }),
{
    assert(cd_word().len() != exit_word().len());
}

/// A scripted call that fails is reported, and then the whole command line
/// is run as a program: the command word with all the tokens after it.
pub proof fn lemma_failed_call_falls_back(
    tokens: Seq<Seq<char>>,
    home: Option<Seq<char>>,
    reason: String,
)
    requires
        tokens.len() > 0,
        decide(tokens) is ScriptedCall,
    ensures
        course_of(tokens, home, Reply::Failed(reason)) == (Course {
            signal: Signal::Continue,
            steps: seq![
                Step::ReportScriptError(reason@),
                Step::Spawn { program: tokens[0], args: tokens.skip(1) },
            ],
        }),
{
}

/// A command word with more than one separator is reported as malformed:
/// no program is run and no scripted call is made, whatever the interpreter
/// would say.
pub proof fn lemma_malformed_runs_nothing(
    tokens: Seq<Seq<char>>,
    home: Option<Seq<char>>,
    reply: Reply,
)
    requires
        tokens.len() > 0,
        occurrences(tokens[0], '.') >= 2,
    ensures
        decide(tokens) is Malformed,
        course_of(tokens, home, reply) == (Course {
            signal: Signal::Continue,
            steps: seq![Step::ReportBadFormat],
        }),
{
    lemma_keywords_have_no_dot();
}

/// A scripted call that returns a string has exactly that string printed
/// as a line, and nothing else happens: no program is run.
pub proof fn lemma_text_reply_is_printed(
    tokens: Seq<Seq<char>>,
    home: Option<Seq<char>>,
    text: String,
)
    requires
        tokens.len() > 0,
        decide(tokens) is ScriptedCall,
    ensures
        course_of(tokens, home, Reply::Text(text)) == (Course {
            signal: Signal::Continue,
            steps: seq![Step::PrintLine(text@)],
        }),
{
}

/// A command line that is no scripted call comes to exactly one step, and
/// the interpreter has no say in it.
pub proof fn lemma_one_path(tokens: Seq<Seq<char>>, home: Option<Seq<char>>, a: Reply, b: Reply)
    requires
        tokens.len() > 0,
        !(decide(tokens) is ScriptedCall),
    ensures
        course_of(tokens, home, a) == course_of(tokens, home, b),
        course_of(tokens, home, a).steps.len() == 1,
{
}

/// Carries a decision out as far as no scripted call is needed.
pub fn direct(decision: Decision, home: Option<String>) -> (r: Outcome)
    ensures
        r@ == direct_course(decision@, option_view(home)),
{
    let mut effects: Vec<Effect> = Vec::new();
    let mut signal = Signal::Continue;
    let ghost plan = decision@;
    match decision {
        Decision::Exit => {
            signal = Signal::Exit;
            effects.push(Effect::Farewell);
        },
        Decision::ChangeDirectory { mut args } => {
            if args.len() == 0 {
                match home {
                    Some(h) => effects.push(Effect::ChangeToHome(h)),
                    None => effects.push(Effect::ReportHomeNotFound),
                }
            } else if args.len() == 1 {
                let target: String = args.remove(0);
                effects.push(Effect::ChangeTo(target));
            } else {
                effects.push(Effect::ReportTooManyArguments);
            }
        },
        Decision::ExternalProcess { program, args } => {
            effects.push(Effect::Spawn { program, args });
        },
        Decision::Malformed => {
            effects.push(Effect::ReportBadFormat);
        },
        Decision::ScriptedCall { .. } => {},
    }
    let r = Outcome { signal, effects };
    assert(r@.steps =~= direct_course(plan, option_view(home)).steps);
    r
}

/// Settles a scripted call whose reply is known.
pub fn settle(tokens: &Vec<String>, reply: Reply) -> (r: Outcome)
    requires
        tokens.len() > 0,
    ensures
        r@ == settled_course(views(tokens@), reply),
{
    let mut effects: Vec<Effect> = Vec::new();
    match reply {
        Reply::Nothing => {},
        Reply::Text(s) => {
            effects.push(Effect::PrintLine(s));
        },
        Reply::Other(kind) => {
            effects.push(Effect::PrintValueType(kind));
        },
        Reply::Failed(message) => {
            effects.push(Effect::ReportScriptError(message));
            effects.push(Effect::Spawn { program: tokens[0].clone(), args: arguments(tokens) });
        },
    }
    let r = Outcome { signal: Signal::Continue, effects };
    assert(r@.steps =~= settled_course(views(tokens@), reply).steps);
    r
}

/// Decides what a command line comes to, asking the interpreter where the
/// command word names a scripted function.
pub fn dispatch(lua: &mlua::Lua, tokens: &Vec<String>, home: Option<String>) -> (r: Outcome)
    requires
        tokens.len() > 0,
    ensures
        exists|reply: Reply| r@ == course_of(views(tokens@), option_view(home), reply),
{
    let decision = classify(tokens);
    match decision {
        Decision::ScriptedCall { module, function, args } => {
            let reply = call_scripted(lua, module.as_str(), function.as_str(), &args);
            let r = settle(tokens, reply);
            assert(r@ == course_of(views(tokens@), option_view(home), reply));
            r
        },
        other => {
            let r = direct(other, home);
            assert(r@ == course_of(views(tokens@), option_view(home), Reply::Nothing));
            r
        },
    }
}

} // verus!
