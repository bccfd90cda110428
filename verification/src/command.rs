//! Which execution path a tokenized command line takes.

use crate::text::{same_text, views};
use vstd::prelude::*;
use vstd::string::*;

verus! {

/// The command word that ends the shell.
pub open spec fn exit_word() -> Seq<char> {
    seq!['e', 'x', 'i', 't']
}

/// The command word that changes the working directory.
pub open spec fn cd_word() -> Seq<char> {
    seq!['c', 'd']
}

/// How often `c` occurs in `s`.
pub open spec fn occurrences(s: Seq<char>, c: char) -> nat
    decreases s.len(),
{
    if s.len() == 0 {
        0
    } else {
        occurrences(s.drop_last(), c) + if s.last() == c {
            1nat
        } else {
            0nat
        }
    }
}

/// The index of the first `c` in `s`, or the length of `s` where it holds none.
pub open spec fn position(s: Seq<char>, c: char) -> int
    decreases s.len(),
{
    if s.len() == 0 || s[0] == c {
        0
    } else {
        1 + position(s.drop_first(), c)
    }
}

/// What is to be done with a command line, over plain sequences of characters.
pub enum Plan {
    /// Leave the shell.
    Exit,
    /// Change the working directory; `args` are the tokens after the command word.
    ChangeDirectory { args: Seq<Seq<char>> },
    /// Call `function` of the scripted module `module` with `args`.
    ScriptedCall { module: Seq<char>, function: Seq<char>, args: Seq<Seq<char>> },
    /// Run the program `program` with `args`.
    ExternalProcess { program: Seq<char>, args: Seq<Seq<char>> },
    /// The command word holds more than one separator: nothing is run.
    Malformed,
}

/// The path that a command line takes, by the shape of its command word.
/// The keywords come first; then a word with exactly one `.` that has
/// something on both sides of it names a scripted function; a word with more
/// than one `.` is malformed; every other word names a program.
pub open spec fn decide(tokens: Seq<Seq<char>>) -> Plan
    recommends
        tokens.len() > 0,
{
    let word = tokens[0];
    let args = tokens.skip(1);
    let dots = occurrences(word, '.');
    let at = position(word, '.');
    if word == exit_word() {
        Plan::Exit
    } else if word == cd_word() {
        Plan::ChangeDirectory { args }
    } else if dots >= 2 {
        Plan::Malformed
    } else if dots == 1 && 0 < at && at + 1 < word.len() {
        Plan::ScriptedCall { module: word.take(at), function: word.skip(at + 1), args }
    } else {
        Plan::ExternalProcess { program: word, args }
    }
}

/// What is to be done with a command line.
#[derive(Clone, Debug, PartialEq, Eq)]
pub enum Decision {
    /// Leave the shell.
    Exit,
    /// Change the working directory; `args` are the tokens after the command word.
    ChangeDirectory { args: Vec<String> },
    /// Call `function` of the scripted module `module` with `args`.
    ScriptedCall { module: String, function: String, args: Vec<String> },
    /// Run the program `program` with `args`.
    ExternalProcess { program: String, args: Vec<String> },
    /// The command word holds more than one separator: nothing is run.
    Malformed,
}

impl View for Decision {
    type V = Plan;

    open spec fn view(&self) -> Plan {
        match self {
            Decision::Exit => Plan::Exit,
            Decision::ChangeDirectory { args } => Plan::ChangeDirectory { args: views(args@) },
            Decision::ScriptedCall { module, function, args } => Plan::ScriptedCall {
                module: module@,
                function: function@,
                args: views(args@),
            },
            Decision::ExternalProcess { program, args } => Plan::ExternalProcess {
                program: program@,
                args: views(args@),
            },
            Decision::Malformed => Plan::Malformed,
        }
    }
}

/// The first occurrence of a character is where `position` says.
pub proof fn lemma_position_is(s: Seq<char>, c: char, k: int)
    requires
        0 <= k <= s.len(),
        forall|i: int| 0 <= i < k ==> #[trigger] s[i] != c,
        k < s.len() ==> s[k] == c,
    ensures
        position(s, c) == k,
    decreases s.len(),
{
    if s.len() == 0 || s[0] == c {
    } else {
        let t = s.drop_first();
        assert forall|i: int| 0 <= i < k - 1 implies #[trigger] t[i] != c by {
            assert(t[i] == s[i + 1]);
        }
        if k - 1 < t.len() {
            assert(t[k - 1] == s[k]);
        }
        lemma_position_is(t, c, k - 1);
    }
}

/// A sequence that holds no `c` has no occurrence of it.
pub proof fn lemma_no_occurrence(s: Seq<char>, c: char)
    requires
        forall|i: int| 0 <= i < s.len() ==> #[trigger] s[i] != c,
    ensures
        occurrences(s, c) == 0,
    decreases s.len(),
{
    if s.len() > 0 {
        let t = s.drop_last();
        assert forall|i: int| 0 <= i < t.len() implies #[trigger] t[i] != c by {
            assert(t[i] == s[i]);
        }
        lemma_no_occurrence(t, c);
    }
}

/// The occurrences in a sequence are those in its two parts together.
pub proof fn lemma_occurrences_add(a: Seq<char>, b: Seq<char>, c: char)
    ensures
        occurrences(a + b, c) == occurrences(a, c) + occurrences(b, c),
    decreases b.len(),
{
    if b.len() == 0 {
        assert(a + b =~= a);
    } else {
        assert((a + b).drop_last() =~= a + b.drop_last());
        lemma_occurrences_add(a, b.drop_last(), c);
    }
}

/// Neither keyword holds a separator.
pub proof fn lemma_keywords_have_no_dot()
    ensures
        occurrences(exit_word(), '.') == 0,
        occurrences(cd_word(), '.') == 0,
{
    lemma_no_occurrence(exit_word(), '.');
    lemma_no_occurrence(cd_word(), '.');
}

/// A command word made of a module name, one separator and a function name,
/// both names non-empty and free of separators, is a scripted call of that
/// function in that module, with the tokens after the word as arguments.
pub proof fn lemma_scripted_call_shape(
    tokens: Seq<Seq<char>>,
    module: Seq<char>,
    function: Seq<char>,
)
    requires
        tokens.len() > 0,
        tokens[0] == module + seq!['.'] + function,
        module.len() > 0,
        function.len() > 0,
        occurrences(module, '.') == 0,
        occurrences(function, '.') == 0,
    ensures
        decide(tokens) == (Plan::ScriptedCall { module, function, args: tokens.skip(1) }),
{
    let word = tokens[0];
    let at = module.len() as int;
    lemma_keywords_have_no_dot();
    lemma_occurrences_add(module, seq!['.'], '.');
    lemma_occurrences_add(module + seq!['.'], function, '.');
    assert(seq!['.'].drop_last() =~= Seq::<char>::empty());
    assert(occurrences(seq!['.'], '.') == 1) by {
        reveal_with_fuel(occurrences, 2);
    }
    assert forall|i: int| 0 <= i < at implies #[trigger] word[i] != '.' by {
        if word[i] == '.' {
            lemma_some_occurrence(module, '.', i);
        }
    }
    assert(word[at] == '.');
    lemma_position_is(word, '.', at);
    assert(word.take(at) =~= module);
    assert(word.skip(at + 1) =~= function);
}

/// A sequence that holds `c` somewhere has an occurrence of it.
pub proof fn lemma_some_occurrence(s: Seq<char>, c: char, i: int)
    requires
        0 <= i < s.len(),
        s[i] == c,
    ensures
        occurrences(s, c) >= 1,
    decreases s.len(),
{
    if i < s.len() - 1 {
        lemma_some_occurrence(s.drop_last(), c, i);
    }
}

/// Copies the tokens after the first.
pub fn arguments(tokens: &Vec<String>) -> (out: Vec<String>)
    requires
        tokens.len() > 0,
    ensures
        views(out@) == views(tokens@).skip(1),
{
    let mut out: Vec<String> = Vec::new();
    let mut i: usize = 1;
    while i < tokens.len()
        invariant
            1 <= i <= tokens.len(),
            out.len() == i - 1,
            forall|k: int| 0 <= k < out.len() ==> (#[trigger] out[k])@ == tokens[k + 1]@,
        decreases tokens.len() - i,
    {
        out.push(tokens[i].clone());
        i += 1;
    }
    assert(views(out@) =~= views(tokens@).skip(1));
    out
}

/// Decides which path a command line takes.
pub fn classify(tokens: &Vec<String>) -> (d: Decision)
    requires
        tokens.len() > 0,
    ensures
        d@ == decide(views(tokens@)),
{
    let word: &str = tokens[0].as_str();
    proof {
        reveal_strlit("exit");
        reveal_strlit("cd");
        assert("exit"@ =~= exit_word());
        assert("cd"@ =~= cd_word());
        assert(views(tokens@)[0] == word@);
    }
    if same_text(word, "exit") {
        return Decision::Exit;
    }
    if same_text(word, "cd") {
        return Decision::ChangeDirectory { args: arguments(tokens) };
    }
    let n: usize = word.unicode_len();
    let mut dots: usize = 0;
    let mut at: usize = n;
    let mut i: usize = 0;
    while i < n
        invariant
            n == word@.len(),
            i <= n,
            dots <= i,
            dots == occurrences(word@.take(i as int), '.'),
            dots == 0 ==> at == n && forall|k: int| 0 <= k < i ==> #[trigger] word@[k] != '.',
            dots > 0 ==> at < i && word@[at as int] == '.' && forall|k: int|
                0 <= k < at ==> #[trigger] word@[k] != '.',
        decreases n - i,
    {
        assert(word@.take(i + 1).drop_last() =~= word@.take(i as int));
        if word.get_char(i) == '.' {
            if dots == 0 {
                at = i;
            }
            dots += 1;
        }
        i += 1;
    }
    proof {
        assert(word@.take(n as int) =~= word@);
        lemma_position_is(word@, '.', at as int);
    }
    if dots >= 2 {
        Decision::Malformed
    } else if dots == 1 && 0 < at && at + 1 < n {
        let module: String = word.substring_char(0, at).to_owned();
        let function: String = word.substring_char(at + 1, n).to_owned();
        proof {
            assert(word@.subrange(0, at as int) =~= word@.take(at as int));
            assert(word@.subrange(at + 1, n as int) =~= word@.skip(at + 1));
        }
        Decision::ScriptedCall { module, function, args: arguments(tokens) }
    } else {
        Decision::ExternalProcess { program: word.to_owned(), args: arguments(tokens) }
    }
}

} // verus!
