//! Command-line normalization: shell-style word splitting through
//! `shell_words`, with a plain whitespace split as the fallback.
use crate::text::{is_ws, is_ws_char, chars_of, string_of_range};
use vstd::prelude::*;

verus! {

#[verifier::external_type_specification]
#[verifier::external_body]
pub struct ExShellWordsParseError(shell_words::ParseError);

/// What `shell_words::split` returns for a command: the words, or `None`
/// where it reports a `ParseError` (a quote left open at the end).
pub uninterp spec fn shell_words_split(command: Seq<char>) -> Option<Seq<Seq<char>>>;

/// The views of a list of owned strings.
pub open spec fn views(v: Seq<String>) -> Seq<Seq<char>> {
    v.map_values(|s: String| s@)
}

/// Calls `shell_words::split`; its result is named by `shell_words_split`.
#[verifier::external_body]
fn shell_split(command: &str) -> (r: Result<Vec<String>, shell_words::ParseError>)
    ensures
        match r {
            Ok(words) => shell_words_split(command@) == Some(views(words@)),
            Err(_) => shell_words_split(command@) is None,
        },
{
    shell_words::split(command)
}

/// The whitespace-separated words of `s`, as `str::split_whitespace` yields them.
pub open spec fn words(s: Seq<char>) -> Seq<Seq<char>>
    decreases s.len(),
{
    if s.len() == 0 {
        seq![]
    } else if is_ws(s.last()) {
        words(s.drop_last())
    } else {
        let w = words(s.drop_last());
        if s.len() >= 2 && !is_ws(s[s.len() - 2]) {
            w.update(w.len() - 1, w.last().push(s.last()))
        } else {
            w.push(seq![s.last()])
        }
    }
}

/// `str::split_whitespace`, collected.
pub fn split_whitespace(s: &str) -> (r: Vec<String>)
    ensures
        views(r@) == words(s@),
{
    let v = chars_of(s);
    let n = v.len();
    let mut out: Vec<String> = Vec::new();
    let mut start: usize = 0;
    let mut in_word = false;
    let mut i: usize = 0;
    while i < n
        invariant
            n == v.len(),
            v@ == s@,
            i <= n,
            start <= i,
            in_word <==> (i > 0 && !is_ws(v@[i - 1])),
            in_word ==> start < i,
            in_word ==> forall|k: int| start <= k < i ==> !is_ws(#[trigger] v@[k]),
            in_word ==> (start == 0 || is_ws(v@[start - 1])),
            in_word ==> words(v@.subrange(0, i as int)) == views(out@).push(
                v@.subrange(start as int, i as int),
            ),
            !in_word ==> words(v@.subrange(0, i as int)) == views(out@),
        decreases n - i,
    {
        let c = v[i];
        let ghost prefix = v@.subrange(0, i as int);
        let ghost next = v@.subrange(0, i + 1);
        assert(next.drop_last() =~= prefix);
        assert(next.last() == c);
        if is_ws_char(c) {
            if in_word {
                let ghost before = out@;
                let w = string_of_range(&v, start, i);
                out.push(w);
                assert(views(out@) =~= views(before).push(v@.subrange(start as int, i as int)));
            }
            in_word = false;
        } else {
            if !in_word {
                start = i;
                in_word = true;
                assert(v@.subrange(start as int, i + 1) =~= seq![c]);
            } else {
                assert(next[next.len() - 2] == v@[i - 1]);
                assert(v@.subrange(start as int, i + 1) =~= v@.subrange(start as int, i as int).push(c));
            }
        }
        i = i + 1;
    }
    if in_word {
        let ghost before = out@;
        let w = string_of_range(&v, start, n);
        out.push(w);
        assert(views(out@) =~= views(before).push(v@.subrange(start as int, n as int)));
    }
    assert(v@.subrange(0, n as int) =~= v@);
    out
}

/// The argv a command normalizes to: the shell-style split when it parses
/// to at least one word, otherwise the whitespace-separated words.
pub open spec fn normalized_argv(command: Seq<char>) -> Seq<Seq<char>> {
    if shell_words_split(command) is Some && shell_words_split(command)->0.len() > 0 {
        shell_words_split(command)->0
    } else {
        words(command)
    }
}

/// Normalizes a command line into argv words.
pub fn normalized_argv_of(command: &str) -> (argv: Vec<String>)
    ensures
        views(argv@) == normalized_argv(command@),
{
    match shell_split(command) {
        Ok(argv) => {
            if argv.len() > 0 {
                argv
            } else {
                split_whitespace(command)
            }
        },
        Err(_) => split_whitespace(command),
    }
}

} // verus!
