//! The embedded Lua interpreter, as far as the shell talks to it.
//!
//! The functions here that are marked `external_body` are the calls into
//! `mlua`. What the interpreter answers depends on the scripts it has run and
//! on the files it can find, so none of them promises anything about its
//! result. The shell's decisions on those results are taken by functions
//! that are verified for every possible answer.

use crate::config::{
    default_modules_path, history_file_default, modules_path_default,
    search_path, search_path_of,
};
use vstd::prelude::*;

verus! {

/// `mlua::Lua`, an interpreter; opaque here.
#[verifier::external_type_specification]
#[verifier::external_body]
pub struct ExLua(mlua::Lua);

/// `mlua::Table`, a handle to a table of the interpreter; opaque here.
#[verifier::external_type_specification]
#[verifier::external_body]
pub struct ExTable(mlua::Table);

/// `mlua::Function`, a handle to a function of the interpreter; opaque here.
#[verifier::external_type_specification]
#[verifier::external_body]
pub struct ExFunction(mlua::Function);

/// `mlua::Value`, any value of the interpreter; opaque here.
#[verifier::external_type_specification]
#[verifier::external_body]
pub struct ExValue(mlua::Value);

/// `mlua::Error`, the interpreter's error; opaque here.
#[verifier::external_type_specification]
#[verifier::external_body]
pub struct ExError(mlua::Error);

/// The interpreter's reply to a scripted call, as far as the shell tells
/// replies apart.
#[derive(Clone, Debug, PartialEq, Eq)]
pub enum Reply {
    /// The function returned no value.
    Nothing,
    /// The function returned a string that is valid UTF-8.
    Text(String),
    /// The function returned another value; this is the name of its type.
    Other(String),
    /// The module or the function was not found, the call failed, or the
    /// string returned is not valid UTF-8; this is the interpreter's message.
    Failed(String),
}

/// The variants of the interpreter's values.
#[derive(Clone, Copy, Debug, PartialEq, Eq, Structural)]
pub enum ValueKind {
    Nil,
    Boolean,
    LightUserData,
    Integer,
    Number,
    Text,
    Table,
    Function,
    Thread,
    UserData,
    Error,
    Other,
}

/// Calls `mlua::Lua::new`, which creates an interpreter with the safe subset
/// of the standard libraries, and ends the process where none can be created.
/// Nothing is claimed of the interpreter.
#[verifier::external_body]
pub(crate) fn fresh_state() -> (lua: mlua::Lua) {
    mlua::Lua::new()
}

/// Calls `mlua::Lua::load_std_libs` with `StdLib::ALL`. Nothing is claimed of
/// the result: the interpreter may refuse a library.
#[verifier::external_body]
pub(crate) fn load_all_libraries(lua: &mlua::Lua) -> (r: Result<(), mlua::Error>) {
    lua.load_std_libs(mlua::StdLib::ALL)
}

/// Calls `mlua::Lua::load` on `source` and `mlua::Chunk::exec` on the chunk.
/// Nothing is claimed of the result: it is the script's own.
#[verifier::external_body]
pub(crate) fn run_chunk(lua: &mlua::Lua, source: &str) -> (r: Result<(), mlua::Error>) {
    lua.load(source).exec()
}

/// Calls `mlua::Lua::globals`, which hands out the table of global bindings.
#[verifier::external_body]
pub(crate) fn globals_of(lua: &mlua::Lua) -> (t: mlua::Table) {
    lua.globals()
}

/// Calls `mlua::Table::get` for a string. Nothing is claimed of the result:
/// the binding may be absent or of another type.
#[verifier::external_body]
pub(crate) fn table_text(t: &mlua::Table, key: &str) -> (r: Result<String, mlua::Error>) {
    t.get::<String>(key)
}

/// Calls `mlua::Table::get` for a table. Nothing is claimed of the result.
#[verifier::external_body]
pub(crate) fn table_table(t: &mlua::Table, key: &str) -> (r: Result<mlua::Table, mlua::Error>) {
    t.get::<mlua::Table>(key)
}

/// Calls `mlua::Table::get` for a function. Nothing is claimed of the result.
#[verifier::external_body]
pub(crate) fn table_function(t: &mlua::Table, key: &str) -> (r: Result<
    mlua::Function,
    mlua::Error,
>) {
    t.get::<mlua::Function>(key)
}

/// Calls `mlua::Table::set` with a string value. Nothing is claimed of the
/// result: a metamethod of the table may fail.
#[verifier::external_body]
pub(crate) fn table_put_text(t: &mlua::Table, key: &str, value: String) -> (r: Result<
    (),
    mlua::Error,
>) {
    t.set(key, value)
}

/// Calls `mlua::Function::call` with one string argument, for a table.
/// Nothing is claimed of the result: it is the called function's own.
#[verifier::external_body]
pub(crate) fn call_for_table(f: &mlua::Function, arg: &str) -> (r: Result<
    mlua::Table,
    mlua::Error,
>) {
    f.call::<mlua::Table>(arg)
}

/// Calls `mlua::Function::call` without arguments, for a string.
/// Nothing is claimed of the result.
#[verifier::external_body]
pub(crate) fn call_for_text(f: &mlua::Function) -> (r: Result<String, mlua::Error>) {
    f.call::<String>(())
}

/// Calls `mlua::Function::call` with each element of `args` as one string
/// argument, for any value. Nothing is claimed of the result.
#[verifier::external_body]
pub(crate) fn call_for_value(f: &mlua::Function, args: &Vec<String>) -> (r: Result<
    mlua::Value,
    mlua::Error,
>) {
    let strings: mlua::Variadic<&str> = args.iter().map(|s| s.as_str()).collect();
    f.call::<mlua::Value>(strings)
}

/// Tells the variants of `mlua::Value` apart, one arm for each. Nothing is
/// claimed of the result.
#[verifier::external_body]
pub(crate) fn kind_of_value(v: &mlua::Value) -> (k: ValueKind) {
    match v {
        mlua::Value::Nil => ValueKind::Nil,
        mlua::Value::Boolean(_) => ValueKind::Boolean,
        mlua::Value::LightUserData(_) => ValueKind::LightUserData,
        mlua::Value::Integer(_) => ValueKind::Integer,
        mlua::Value::Number(_) => ValueKind::Number,
        mlua::Value::String(_) => ValueKind::Text,
        mlua::Value::Table(_) => ValueKind::Table,
        mlua::Value::Function(_) => ValueKind::Function,
        mlua::Value::Thread(_) => ValueKind::Thread,
        mlua::Value::UserData(_) => ValueKind::UserData,
        mlua::Value::Error(_) => ValueKind::Error,
        mlua::Value::Other(_) => ValueKind::Other,
    }
}

/// Calls `mlua::String::to_str` on a value that is a string, which fails
/// where the bytes are not valid UTF-8; on any other value the answer is
/// `None`. Nothing is claimed of the result.
#[verifier::external_body]
pub(crate) fn text_of_value(v: &mlua::Value) -> (r: Option<Result<String, mlua::Error>>) {
    match v {
        mlua::Value::String(s) => Some(s.to_str().map(|t| t.to_string())),
        _ => None,
    }
}

/// Renders an `mlua::Error` through its `Display` impl. Nothing is claimed
/// of the text.
#[verifier::external_body]
pub(crate) fn error_text(e: &mlua::Error) -> (s: String) {
    format!("{}", e)
}

/// The name that the interpreter gives to the type of a value of the given kind.
pub open spec fn kind_name(kind: ValueKind) -> Seq<char> {
    match kind {
        ValueKind::Nil => "nil"@,
        ValueKind::Boolean => "boolean"@,
        ValueKind::LightUserData => "lightuserdata"@,
        ValueKind::Integer => "integer"@,
        ValueKind::Number => "number"@,
        ValueKind::Text => "string"@,
        ValueKind::Table => "table"@,
        ValueKind::Function => "function"@,
        ValueKind::Thread => "thread"@,
        ValueKind::UserData => "userdata"@,
        ValueKind::Error => "error"@,
        ValueKind::Other => "other"@,
    }
}

/// Names the type of a value of the given kind.
pub fn name_of_kind(kind: ValueKind) -> (name: String)
    ensures
        name@ == kind_name(kind),
{
    let name: &str = match kind {
        ValueKind::Nil => "nil",
        ValueKind::Boolean => "boolean",
        ValueKind::LightUserData => "lightuserdata",
        ValueKind::Integer => "integer",
        ValueKind::Number => "number",
        ValueKind::Text => "string",
        ValueKind::Table => "table",
        ValueKind::Function => "function",
        ValueKind::Thread => "thread",
        ValueKind::UserData => "userdata",
        ValueKind::Error => "error",
        ValueKind::Other => "other",
    };
    name.to_owned()
}

/// The reply that a returned value of the given kind makes, where `text` is
/// what reading it as a string gave.
pub open spec fn reply_matches(
    reply: Reply,
    kind: ValueKind,
    text: Option<Result<String, mlua::Error>>,
) -> bool {
    match kind {
        ValueKind::Nil => reply is Nothing,
        ValueKind::Text => match text {
            Some(Ok(s)) => reply == Reply::Text(s),
            Some(Err(_)) => reply is Failed,
            None => reply is Other && reply->Other_0@ == kind_name(kind),
        },
        _ => reply is Other && reply->Other_0@ == kind_name(kind),
    }
}

/// Turns a returned value into a reply: nil is nothing, a string is its
/// text or, where it cannot be read, a failure; any other value gives the
/// name of its type.
pub fn reply_for(kind: ValueKind, text: Option<Result<String, mlua::Error>>) -> (reply: Reply)
    ensures
        reply_matches(reply, kind, text),
{
    match kind {
        ValueKind::Nil => Reply::Nothing,
        ValueKind::Text => match text {
            Some(Ok(s)) => Reply::Text(s),
            Some(Err(e)) => Reply::Failed(error_text(&e)),
            None => Reply::Other(name_of_kind(kind)),
        },
        _ => Reply::Other(name_of_kind(kind)),
    }
}

/// Looks `module` up through the interpreter's `require`, takes `function`
/// from the module and calls it with `args`, each as one string. Whatever
/// goes wrong on the way makes the reply a failure; a reply that names a
/// type names it as the interpreter does.
pub fn call_scripted(lua: &mlua::Lua, module: &str, function: &str, args: &Vec<String>) -> (reply:
    Reply)
    ensures
        reply matches Reply::Other(name) ==> exists|kind: ValueKind| name@ == kind_name(kind),
{
    let globals = globals_of(lua);
    let outcome = match table_function(&globals, "require") {
        Err(e) => Err(e),
        Ok(require) => match call_for_table(&require, module) {
            Err(e) => Err(e),
            Ok(table) => match table_function(&table, function) {
                Err(e) => Err(e),
                Ok(callee) => match call_for_value(&callee, args) {
                    Err(e) => Err(e),
                    Ok(v) => Ok((kind_of_value(&v), text_of_value(&v))),
                },
            },
        },
    };
    let reply = reply_of(outcome);
    assert(reply matches Reply::Other(name) ==> outcome matches Ok((kind, _)) && name@ == kind_name(kind));
    reply
}

/// A new interpreter, with a message where not all of the standard library
/// could be loaded into it. The interpreter is handed out either way.
pub fn initialize() -> (r: (mlua::Lua, Option<String>)) {
    let lua = fresh_state();
    // The interpreter is handed out whether or not every library loaded:
    // a library that is refused leaves the others in place.
    let loaded = load_all_libraries(&lua);
    let complaint = complaint_of(loaded);
    (lua, complaint)
}

/// The shell's interpreter: made when it is first asked for, and the same
/// one from then on.
pub struct Engine {
    handle: Option<mlua::Lua>,
}

impl Engine {
    /// Whether the interpreter has been made.
    pub closed spec fn ready(&self) -> bool {
        self.handle is Some
    }

    /// The interpreter, once it has been made.
    pub closed spec fn state(&self) -> mlua::Lua
        recommends
            self.ready(),
    {
        self.handle->0
    }

    /// An engine whose interpreter has not been made yet.
    pub fn new() -> (engine: Engine)
        ensures
            !engine.ready(),
    {
        Engine { handle: None }
    }

    /// Whether the interpreter has been made.
    pub fn is_ready(&self) -> (r: bool)
        ensures
            r == self.ready(),
    {
        self.handle.is_some()
    }

    /// Makes the interpreter unless it has been made: afterwards there is
    /// one, and one that was there before is the one that stays. The result
    /// is the complaint of a new interpreter that could not load all of the
    /// standard library.
    pub fn start(&mut self) -> (complaint: Option<String>)
        ensures
            final(self).ready(),
            old(self).ready() ==> *final(self) == *old(self) && complaint is None,
    {
        if self.handle.is_none() {
            let (lua, complaint) = initialize();
            self.handle = Some(lua);
            complaint
        } else {
            None
        }
    }

    /// The interpreter, if it has been made.
    pub fn get(&self) -> (lua: Option<&mlua::Lua>)
        ensures
            lua is Some <==> self.ready(),
            self.ready() ==> *lua->0 == self.state(),
    {
        self.handle.as_ref()
    }
}

/// A setting read from the interpreter, or the fallback where the binding
/// is absent or no string.
pub fn setting_or(found: Result<String, mlua::Error>, fallback: String) -> (value: String)
    ensures
        value == match found {
            Ok(s) => s,
            Err(_) => fallback,
        },
{
    match found {
        Ok(s) => s,
        Err(_) => fallback,
    }
}

/// The history file that the configuration names, or the default.
pub fn history_setting(lua: &mlua::Lua) -> (file: String) {
    let globals = globals_of(lua);
    setting_or(table_text(&globals, "history_file"), history_file_default())
}

/// How loading a configuration script went.
#[derive(Clone, Debug, PartialEq, Eq)]
pub enum ConfigLoad {
    /// The script failed, with the interpreter's message; the defaults hold.
    ScriptFailed(String),
    /// The script ran: `modules_path` is the module directory in force and
    /// `search_path` the search path that the interpreter was given.
    Applied { modules_path: String, search_path: String },
}

/// Whether `load` is a possible result of a script that ran, where `found` is
/// what reading the module directory gave and `current` the search path that
/// the interpreter had.
pub open spec fn applies(load: ConfigLoad, found: Result<String, mlua::Error>, current: Seq<char>) -> bool {
    match load {
        ConfigLoad::ScriptFailed(_) => false,
        ConfigLoad::Applied { modules_path, search_path } => {
            &&& modules_path@ == match found {
                Ok(s) => s@,
                Err(_) => default_modules_path(),
            }
            &&& search_path@ == search_path_of(modules_path@, current)
        },
    }
}

/// Runs a configuration script and puts the module directory that it names,
/// or the default, before the interpreter's search path. A script that fails
/// is no error: the defaults then hold. An interpreter without a search path,
/// or one that refuses the new path, is an error.
pub fn load_config(lua: &mlua::Lua, source: &str) -> (r: Result<ConfigLoad, String>)
    ensures
        r matches Ok(load) ==> load is ScriptFailed || exists|
            found: Result<String, mlua::Error>,
            current: Seq<char>,
        | applies(load, found, current),
{
    if let Some(failed) = script_verdict(run_chunk(lua, source)) {
        return Ok(failed);
    }
    let globals = globals_of(lua);
    let found = table_text(&globals, "modules_path");
    let modules_path: String = setting_or(found, modules_path_default());
    let package = match table_table(&globals, "package") {
        Ok(t) => t,
        Err(e) => { return Err(error_text(&e)); },
    };
    let current: String = match table_text(&package, "path") {
        Ok(s) => s,
        Err(e) => { return Err(error_text(&e)); },
    };
    let new_path: String = search_path(modules_path.as_str(), current.as_str());
    // The new path is handed to the interpreter before the load counts as
    // applied: an interpreter that refuses it makes the whole load fail.
    let put = table_put_text(&package, "path", new_path.clone());
    let load = ConfigLoad::Applied { modules_path, search_path: new_path };
    proof {
        assert(applies(load, found, current@));
    }
    concluded(load, put)
}

/// What asking the configuration for a prompt gave.
#[derive(Clone, Debug, PartialEq, Eq)]
pub enum PromptAnswer {
    /// The prompt function returned this text.
    Ready(String),
    /// The prompt function failed, with the interpreter's message.
    Broken(String),
    /// There is no prompt function, with the interpreter's message.
    Missing(String),
}

/// The prompt that is shown where the prompt function failed.
pub open spec fn error_prompt() -> Seq<char> {
    "sfsh_rust_error> "@
}

/// The prompt that is shown where there is no prompt function.
pub open spec fn fallback_prompt() -> Seq<char> {
    "sfsh_rust_fallback> "@
}

/// The prompt to show for an answer.
pub open spec fn prompt_of(answer: PromptAnswer) -> Seq<char> {
    match answer {
        PromptAnswer::Ready(s) => s@,
        PromptAnswer::Broken(_) => error_prompt(),
        PromptAnswer::Missing(_) => fallback_prompt(),
    }
}

/// The prompt to show: the text of the prompt function, or a fixed prompt
/// where the function failed or is missing.
pub fn prompt_text(answer: &PromptAnswer) -> (text: String)
    ensures
        text@ == prompt_of(*answer),
{
    match answer {
        PromptAnswer::Ready(s) => s.clone(),
        PromptAnswer::Broken(_) => "sfsh_rust_error> ".to_owned(),
        PromptAnswer::Missing(_) => "sfsh_rust_fallback> ".to_owned(),
    }
}

/// Asks the configuration's prompt function, `get_prompt`, for a prompt.
pub fn ask_prompt(lua: &mlua::Lua) -> (answer: PromptAnswer) {
    let globals = globals_of(lua);
    let lookup = match table_function(&globals, "get_prompt") {
        Ok(f) => Ok(call_for_text(&f)),
        Err(e) => Err(e),
    };
    answer_for(lookup)
}

/// Whether `reply` is the reply to a scripted call that went as `outcome`
/// says: an error anywhere on the way is a failure, and a value that came
/// back, given by its kind and by what reading it as a string gave, is the
/// reply that `reply_matches` describes.
pub open spec fn replies(
    reply: Reply,
    outcome: Result<(ValueKind, Option<Result<String, mlua::Error>>), mlua::Error>,
) -> bool {
    match outcome {
        Ok((kind, text)) => reply_matches(reply, kind, text),
        Err(_) => reply is Failed,
    }
}

/// The reply to a scripted call that went as `outcome` says.
pub fn reply_of(
    outcome: Result<(ValueKind, Option<Result<String, mlua::Error>>), mlua::Error>,
) -> (reply: Reply)
    ensures
        replies(reply, outcome),
{
    match outcome {
        Ok((kind, text)) => reply_for(kind, text),
        Err(e) => Reply::Failed(error_text(&e)),
    }
}

/// The complaint to pass on after the standard library was loaded: none
/// where loading went well, the interpreter's message where it did not.
pub fn complaint_of(loaded: Result<(), mlua::Error>) -> (complaint: Option<String>)
    ensures
        complaint is Some <==> loaded is Err,
{
    match loaded {
        Ok(_) => None,
        Err(e) => Some(error_text(&e)),
    }
}

/// What running the configuration script settles by itself: a script that
/// failed ends the load, softly, with the interpreter's message; a script
/// that ran settles nothing yet.
pub fn script_verdict(run: Result<(), mlua::Error>) -> (verdict: Option<ConfigLoad>)
    ensures
        verdict is Some <==> run is Err,
        verdict matches Some(load) ==> load is ScriptFailed,
{
    match run {
        Ok(_) => None,
        Err(e) => Some(ConfigLoad::ScriptFailed(error_text(&e))),
    }
}

/// The end of a load whose script ran: `load` where the interpreter took
/// the new search path, an error with its message where it refused.
pub fn concluded(load: ConfigLoad, put: Result<(), mlua::Error>) -> (r: Result<ConfigLoad, String>)
    ensures
        put is Ok ==> r == Ok::<ConfigLoad, String>(load),
        put is Err ==> r is Err,
{
    match put {
        Ok(_) => Ok(load),
        Err(e) => Err(error_text(&e)),
    }
}

/// Whether `answer` is the answer where looking the prompt function up, and
/// then calling it, went as `lookup` says.
pub open spec fn answers(
    answer: PromptAnswer,
    lookup: Result<Result<String, mlua::Error>, mlua::Error>,
) -> bool {
    match lookup {
        Ok(Ok(text)) => answer == PromptAnswer::Ready(text),
        Ok(Err(_)) => answer is Broken,
        Err(_) => answer is Missing,
    }
}

/// The answer where looking the prompt function up, and then calling it,
/// went as `lookup` says: its text where both went well, broken where the
/// call failed, missing where there is no such function.
pub fn answer_for(lookup: Result<Result<String, mlua::Error>, mlua::Error>) -> (answer:
    PromptAnswer)
    ensures
        answers(answer, lookup),
{
    match lookup {
        Ok(Ok(text)) => PromptAnswer::Ready(text),
        Ok(Err(e)) => PromptAnswer::Broken(error_text(&e)),
        Err(e) => PromptAnswer::Missing(error_text(&e)),
    }
}

} // verus!
