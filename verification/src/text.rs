//! Characters, whitespace and the splitting of a line into tokens.

use vstd::prelude::*;
use vstd::string::*;

verus! {

/// Whether `c` is white space in the sense of the Unicode property `White_Space`.
pub open spec fn is_space(c: char) -> bool {
    let n = c as u32;
    ||| 0x09 <= n <= 0x0D
    ||| n == 0x20
    ||| n == 0x85
    ||| n == 0xA0
    ||| n == 0x1680
    ||| 0x2000 <= n <= 0x200A
    ||| n == 0x2028
    ||| n == 0x2029
    ||| n == 0x202F
    ||| n == 0x205F
    ||| n == 0x3000
}

/// Whether every character of `s` is white space.
pub open spec fn all_space(s: Seq<char>) -> bool {
    forall|i: int| 0 <= i < s.len() ==> is_space(#[trigger] s[i])
}

/// Whether no character of `s` is white space.
pub open spec fn no_space(s: Seq<char>) -> bool {
    forall|i: int| 0 <= i < s.len() ==> !is_space(#[trigger] s[i])
}

/// The views of a sequence of strings, in order.
pub open spec fn views(v: Seq<String>) -> Seq<Seq<char>> {
    Seq::new(v.len(), |i: int| v[i]@)
}

/// The characters of a string that may be absent.
pub open spec fn option_view(s: Option<String>) -> Option<Seq<char>> {
    match s {
        Some(t) => Some(t@),
        None => None,
    }
}

/// Tests a character for white space.
pub fn char_is_space(c: char) -> (r: bool)
    ensures
        r == is_space(c),
{
    let n: u32 = c as u32;
    (0x09 <= n && n <= 0x0D) || n == 0x20 || n == 0x85 || n == 0xA0 || n == 0x1680 || (0x2000 <= n
        && n <= 0x200A) || n == 0x2028 || n == 0x2029 || n == 0x202F || n == 0x205F || n == 0x3000
}

/// Compares two strings character by character.
pub fn same_text(a: &str, b: &str) -> (r: bool)
    ensures
        r == (a@ == b@),
{
    let n: usize = a.unicode_len();
    if n != b.unicode_len() {
        return false;
    }
    let mut i: usize = 0;
    while i < n
        invariant
            n == a@.len(),
            n == b@.len(),
            i <= n,
            forall|k: int| 0 <= k < i ==> a@[k] == b@[k],
        decreases n - i,
    {
        if a.get_char(i) != b.get_char(i) {
            return false;
        }
        i += 1;
    }
    assert(a@ =~= b@);
    true
}

/// The length of the longest prefix of `s` that holds no white space.
pub open spec fn word_len(s: Seq<char>) -> nat
    decreases s.len(),
{
    if s.len() == 0 || is_space(s[0]) {
        0
    } else {
        1 + word_len(s.drop_first())
    }
}

/// The tokens of a line: its maximal runs of characters that are not white
/// space, from left to right.
pub open spec fn tokens_of(s: Seq<char>) -> Seq<Seq<char>>
    decreases s.len(),
    via tokens_of_terminates
{
    if s.len() == 0 {
        Seq::empty()
    } else if is_space(s[0]) {
        tokens_of(s.drop_first())
    } else {
        let n = word_len(s) as int;
        seq![s.take(n)] + tokens_of(s.skip(n))
    }
}

#[via_fn]
proof fn tokens_of_terminates(s: Seq<char>) {
    lemma_word_len(s);
}

/// `s` without the white space at its start.
pub open spec fn trim_start(s: Seq<char>) -> Seq<char>
    decreases s.len(),
{
    if s.len() > 0 && is_space(s[0]) {
        trim_start(s.drop_first())
    } else {
        s
    }
}

/// `s` without the white space at its end.
pub open spec fn trim_end(s: Seq<char>) -> Seq<char>
    decreases s.len(),
{
    if s.len() > 0 && is_space(s.last()) {
        trim_end(s.drop_last())
    } else {
        s
    }
}

/// `s` without the white space at either end.
pub open spec fn trimmed(s: Seq<char>) -> Seq<char> {
    trim_end(trim_start(s))
}

/// The first `word_len(s)` characters of `s` are no white space, and the
/// character after them, if there is one, is.
pub proof fn lemma_word_len(s: Seq<char>)
    ensures
        word_len(s) <= s.len(),
        no_space(s.take(word_len(s) as int)),
        word_len(s) < s.len() ==> is_space(s[word_len(s) as int]),
        s.len() > 0 && !is_space(s[0]) ==> word_len(s) >= 1,
    decreases s.len(),
{
    if s.len() == 0 || is_space(s[0]) {
    } else {
        let t = s.drop_first();
        lemma_word_len(t);
        let n = word_len(s) as int;
        assert forall|i: int| 0 <= i < n implies !is_space(#[trigger] s.take(n)[i]) by {
            if i > 0 {
                assert(s.take(n)[i] == t.take(n - 1)[i - 1]);
            }
        }
        if n < s.len() {
            assert(s[n] == t[n - 1]);
        }
    }
}

/// A prefix without white space that ends the line, or that white space
/// follows, is the longest such prefix.
pub proof fn lemma_word_len_is(s: Seq<char>, k: int)
    requires
        0 <= k <= s.len(),
        forall|i: int| 0 <= i < k ==> !is_space(#[trigger] s[i]),
        k < s.len() ==> is_space(s[k]),
    ensures
        word_len(s) == k,
    decreases s.len(),
{
    if s.len() == 0 || is_space(s[0]) {
    } else {
        let t = s.drop_first();
        assert forall|i: int| 0 <= i < k - 1 implies !is_space(#[trigger] t[i]) by {
            assert(t[i] == s[i + 1]);
        }
        if k - 1 < t.len() {
            assert(t[k - 1] == s[k]);
        }
        lemma_word_len_is(t, k - 1);
    }
}

/// Splits a line into its tokens.
pub fn tokenize(line: &str) -> (out: Vec<String>)
    ensures
        views(out@) == tokens_of(line@),
{
    let n: usize = line.unicode_len();
    let mut out: Vec<String> = Vec::new();
    let mut i: usize = 0;
    proof {
        assert(line@.skip(0) =~= line@);
        assert(views(out@) + tokens_of(line@.skip(0)) =~= tokens_of(line@));
    }
    while i < n
        invariant
            n == line@.len(),
            i <= n,
            tokens_of(line@) == views(out@) + tokens_of(line@.skip(i as int)),
        decreases n - i,
    {
        let ghost rest = line@.skip(i as int);
        let c: char = line.get_char(i);
        assert(rest[0] == c);
        if char_is_space(c) {
            assert(rest.drop_first() =~= line@.skip(i + 1));
            i += 1;
        } else {
            let mut j: usize = i + 1;
            while j < n
                invariant
                    n == line@.len(),
                    i < j <= n,
                    forall|k: int| i <= k < j ==> !is_space(#[trigger] line@[k]),
                ensures
                    j < n ==> is_space(line@[j as int]),
                decreases n - j,
            {
                if char_is_space(line.get_char(j)) {
                    break ;
                }
                j += 1;
            }
            let word: &str = line.substring_char(i, j);
            let ghost before = views(out@);
            out.push(word.to_owned());
            proof {
                assert forall|k: int| 0 <= k < j - i implies !is_space(#[trigger] rest[k]) by {
                    assert(rest[k] == line@[i + k]);
                }
                if j < n {
                    assert(rest[j - i] == line@[j as int]);
                }
                lemma_word_len_is(rest, j - i);
                assert(rest.take(j - i) =~= line@.subrange(i as int, j as int));
                assert(rest.skip(j - i) =~= line@.skip(j as int));
                assert(views(out@) =~= before + seq![word@]);
                assert(before + (seq![word@] + tokens_of(line@.skip(j as int))) =~= (before
                    + seq![word@]) + tokens_of(line@.skip(j as int)));
            }
            i = j;
        }
    }
    proof {
        assert(line@.skip(n as int).len() == 0);
        assert(views(out@) + Seq::<Seq<char>>::empty() =~= views(out@));
    }
    out
}

/// White space before the first other character is all that `trim_start` removes.
pub proof fn lemma_trim_start_is(s: Seq<char>, a: int)
    requires
        0 <= a <= s.len(),
        forall|i: int| 0 <= i < a ==> is_space(#[trigger] s[i]),
        a < s.len() ==> !is_space(s[a]),
    ensures
        trim_start(s) == s.skip(a),
    decreases s.len(),
{
    if s.len() > 0 && is_space(s[0]) {
        let t = s.drop_first();
        assert forall|i: int| 0 <= i < a - 1 implies is_space(#[trigger] t[i]) by {
            assert(t[i] == s[i + 1]);
        }
        if a - 1 < t.len() {
            assert(t[a - 1] == s[a]);
        }
        lemma_trim_start_is(t, a - 1);
        assert(t.skip(a - 1) =~= s.skip(a));
    } else {
        assert(s.skip(0) =~= s);
    }
}

/// White space after the last other character is all that `trim_end` removes.
pub proof fn lemma_trim_end_is(s: Seq<char>, b: int)
    requires
        0 <= b <= s.len(),
        forall|i: int| b <= i < s.len() ==> is_space(#[trigger] s[i]),
        b > 0 ==> !is_space(s[b - 1]),
    ensures
        trim_end(s) == s.take(b),
    decreases s.len(),
{
    if s.len() > 0 && is_space(s.last()) {
        let t = s.drop_last();
        assert forall|i: int| b <= i < t.len() implies is_space(#[trigger] t[i]) by {
            assert(t[i] == s[i]);
        }
        lemma_trim_end_is(t, b);
        assert(t.take(b) =~= s.take(b));
    } else {
        assert(s.take(s.len() as int) =~= s);
    }
}

/// Removes the white space at both ends of a line.
pub fn trim<'a>(line: &'a str) -> (r: &'a str)
    ensures
        r@ == trimmed(line@),
{
    let n: usize = line.unicode_len();
    let mut a: usize = 0;
    while a < n
        invariant
            n == line@.len(),
            a <= n,
            forall|i: int| 0 <= i < a ==> is_space(#[trigger] line@[i]),
        ensures
            a < n ==> !is_space(line@[a as int]),
        decreases n - a,
    {
        if !char_is_space(line.get_char(a)) {
            break ;
        }
        a += 1;
    }
    let mut b: usize = n;
    while b > a
        invariant
            n == line@.len(),
            a <= b <= n,
            forall|i: int| b <= i < n ==> is_space(#[trigger] line@[i]),
        ensures
            b > a ==> !is_space(line@[b - 1]),
        decreases b,
    {
        if !char_is_space(line.get_char(b - 1)) {
            break ;
        }
        b -= 1;
    }
    proof {
        let t = line@.skip(a as int);
        lemma_trim_start_is(line@, a as int);
        assert forall|i: int| b - a <= i < t.len() implies is_space(#[trigger] t[i]) by {
            assert(t[i] == line@[a + i]);
        }
        if b > a {
            assert(t[b - a - 1] == line@[b - 1]);
        }
        lemma_trim_end_is(t, b - a);
        assert(t.take(b - a) =~= line@.subrange(a as int, b as int));
    }
    line.substring_char(a, b)
}

/// Every token holds at least one character and no white space.
pub proof fn lemma_tokens_are_words(s: Seq<char>)
    ensures
        forall|i: int|
            0 <= i < tokens_of(s).len() ==> (#[trigger] tokens_of(s)[i]).len() > 0 && no_space(
                tokens_of(s)[i],
            ),
    decreases s.len(),
{
    if s.len() == 0 {
        assert(tokens_of(s).len() == 0);
    } else if is_space(s[0]) {
        lemma_tokens_are_words(s.drop_first());
        assert(tokens_of(s) == tokens_of(s.drop_first()));
    } else {
        lemma_word_len(s);
        let n = word_len(s) as int;
        lemma_tokens_are_words(s.skip(n));
        let rest = tokens_of(s.skip(n));
        assert(tokens_of(s) == seq![s.take(n)] + rest);
        assert(tokens_of(s)[0] == s.take(n));
        assert forall|i: int| 0 <= i < tokens_of(s).len() implies (#[trigger] tokens_of(
            s,
        )[i]).len() > 0 && no_space(tokens_of(s)[i]) by {
            if i > 0 {
                assert(tokens_of(s)[i] == rest[i - 1]);
            }
        }
    }
}

/// The characters of `s` that are no white space, in order.
pub open spec fn without_space(s: Seq<char>) -> Seq<char>
    decreases s.len(),
{
    if s.len() == 0 {
        Seq::empty()
    } else if is_space(s[0]) {
        without_space(s.drop_first())
    } else {
        seq![s[0]] + without_space(s.drop_first())
    }
}

/// The sequences of `parts` one after another.
pub open spec fn joined(parts: Seq<Seq<char>>) -> Seq<char>
    decreases parts.len(),
{
    if parts.len() == 0 {
        Seq::empty()
    } else {
        parts[0] + joined(parts.drop_first())
    }
}

/// A word without white space, followed by `rest`, loses only what `rest` loses.
proof fn lemma_without_space_after_word(w: Seq<char>, rest: Seq<char>)
    requires
        no_space(w),
    ensures
        without_space(w + rest) == w + without_space(rest),
    decreases w.len(),
{
    if w.len() == 0 {
        assert(w + rest =~= rest);
        assert(w + without_space(rest) =~= without_space(rest));
    } else {
        let t = w.drop_first();
        assert(!is_space(w[0]));
        assert forall|i: int| 0 <= i < t.len() implies !is_space(#[trigger] t[i]) by {
            assert(t[i] == w[i + 1]);
        }
        assert((w + rest).drop_first() =~= t + rest);
        lemma_without_space_after_word(t, rest);
        assert(seq![w[0]] + (t + without_space(rest)) =~= w + without_space(rest));
    }
}

/// The tokens of a line, one after another, are the characters of the line
/// that are no white space, in the order of the line: tokenizing drops white
/// space and nothing else, and changes no order.
pub proof fn lemma_tokens_keep_characters(s: Seq<char>)
    ensures
        joined(tokens_of(s)) == without_space(s),
    decreases s.len(),
{
    if s.len() == 0 {
    } else if is_space(s[0]) {
        lemma_tokens_keep_characters(s.drop_first());
    } else {
        lemma_word_len(s);
        let n = word_len(s) as int;
        let w = s.take(n);
        let rest = s.skip(n);
        lemma_tokens_keep_characters(rest);
        assert(tokens_of(s) == seq![w] + tokens_of(rest));
        assert(tokens_of(s)[0] == w);
        assert(tokens_of(s).drop_first() =~= tokens_of(rest));
        assert(w + rest =~= s);
        lemma_without_space_after_word(w, rest);
    }
}

/// A line has no token exactly when it holds nothing but white space.
pub proof fn lemma_no_tokens_iff_blank(s: Seq<char>)
    ensures
        tokens_of(s).len() == 0 <==> all_space(s),
    decreases s.len(),
{
    if s.len() == 0 {
    } else if is_space(s[0]) {
        let t = s.drop_first();
        lemma_no_tokens_iff_blank(t);
        if all_space(t) {
            assert forall|i: int| 0 <= i < s.len() implies is_space(#[trigger] s[i]) by {
                if i > 0 {
                    assert(s[i] == t[i - 1]);
                }
            }
        }
        if all_space(s) {
            assert forall|i: int| 0 <= i < t.len() implies is_space(#[trigger] t[i]) by {
                assert(t[i] == s[i + 1]);
            }
        }
    } else {
        assert(!is_space(s[0]));
    }
}

/// White space added at the end of a line changes none of its tokens.
pub proof fn lemma_tokens_ignore_trailing_space(s: Seq<char>, c: char)
    requires
        is_space(c),
    ensures
        tokens_of(s.push(c)) == tokens_of(s),
    decreases s.len(),
{
    let p = s.push(c);
    if s.len() == 0 {
        assert(p.drop_first() =~= s);
    } else if is_space(s[0]) {
        assert(p.drop_first() =~= s.drop_first().push(c));
        lemma_tokens_ignore_trailing_space(s.drop_first(), c);
    } else {
        lemma_word_len(s);
        let n = word_len(s) as int;
        assert forall|i: int| 0 <= i < n implies !is_space(#[trigger] p[i]) by {
            assert(p[i] == s.take(n)[i]);
        }
        lemma_word_len_is(p, n);
        assert(p.take(n) =~= s.take(n));
        assert(p.skip(n) =~= s.skip(n).push(c));
        lemma_tokens_ignore_trailing_space(s.skip(n), c);
    }
}

/// Trimming a line changes none of its tokens.
pub proof fn lemma_tokens_of_trimmed(s: Seq<char>)
    ensures
        tokens_of(trimmed(s)) == tokens_of(s),
{
    lemma_tokens_of_trim_start(s);
    lemma_tokens_of_trim_end(trim_start(s));
}

proof fn lemma_tokens_of_trim_start(s: Seq<char>)
    ensures
        tokens_of(trim_start(s)) == tokens_of(s),
    decreases s.len(),
{
    if s.len() > 0 && is_space(s[0]) {
        lemma_tokens_of_trim_start(s.drop_first());
    }
}

proof fn lemma_tokens_of_trim_end(s: Seq<char>)
    ensures
        tokens_of(trim_end(s)) == tokens_of(s),
        trim_end(s).len() > 0 ==> !is_space(trim_end(s).last()),
    decreases s.len(),
{
    if s.len() > 0 && is_space(s.last()) {
        lemma_tokens_of_trim_end(s.drop_last());
        lemma_tokens_ignore_trailing_space(s.drop_last(), s.last());
        assert(s.drop_last().push(s.last()) =~= s);
    }
}

/// A line is empty after trimming exactly when it holds nothing but white
/// space, which is exactly when it has no token.
pub proof fn lemma_blank_line(s: Seq<char>)
    ensures
        trimmed(s).len() == 0 <==> all_space(s),
        trimmed(s).len() == 0 <==> tokens_of(s).len() == 0,
{
    lemma_tokens_of_trimmed(s);
    lemma_tokens_of_trim_end(trim_start(s));
    lemma_no_tokens_iff_blank(s);
    lemma_no_tokens_iff_blank(trimmed(s));
}

} // verus!
