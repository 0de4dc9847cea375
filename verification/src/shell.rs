//! Quoting a file path for the shell, and the command that opens a file in
//! the user's editor.
use vstd::prelude::*;

use crate::text::{joined, replace_all, replace_all_str};

verus! {

/// The four characters that stand for a single quote inside a quoted word:
/// close the quotes, an escaped quote, open the quotes again.
pub open spec fn escaped_quote() -> Seq<char> {
    seq!['\'', '\\', '\'', '\'']
}

/// `s` as one single-quoted shell word.
pub open spec fn shell_quoted(s: Seq<char>) -> Seq<char> {
    seq!['\''] + replace_all(s, seq!['\''], escaped_quote()) + seq!['\'']
}

/// How a POSIX shell reads a word outside quotes, with `acc` the text read so
/// far: a quote opens a quoted part, a backslash takes the next character
/// literally. Anything else (which `shell_quoted` never produces outside
/// quotes) is not read here.
pub open spec fn read_unquoted(w: Seq<char>, acc: Seq<char>) -> Option<Seq<char>>
    decreases w.len(), 0int,
{
    if w.len() == 0 {
        Some(acc)
    } else if w[0] == '\'' {
        read_quoted(w.subrange(1, w.len() as int), acc)
    } else if w[0] == '\\' && w.len() >= 2 {
        read_unquoted(w.subrange(2, w.len() as int), acc.push(w[1]))
    } else {
        None
    }
}

/// How a POSIX shell reads the inside of single quotes: every character is
/// literal until the closing quote.
pub open spec fn read_quoted(w: Seq<char>, acc: Seq<char>) -> Option<Seq<char>>
    decreases w.len(), 1int,
{
    if w.len() == 0 {
        None
    } else if w[0] == '\'' {
        read_unquoted(w.subrange(1, w.len() as int), acc)
    } else {
        read_quoted(w.subrange(1, w.len() as int), acc.push(w[0]))
    }
}

/// The shell command that opens `path` in `editor`.
pub open spec fn open_command_text(editor: Seq<char>, path: Seq<char>) -> Seq<char> {
    editor + seq![' '] + shell_quoted(path)
}

/// `s` as one single-quoted shell word, each quote inside written `'\''`.
pub fn shell_escape(s: &str) -> (r: String)
    ensures
        r@ == shell_quoted(s@),
{
    proof {
        reveal_strlit("'\\''");
        reveal_strlit("'");
        assert("'\\''"@ =~= escaped_quote());
        assert("'"@ =~= seq!['\'']);
    }
    let inner = replace_all_str(s, "'", "'\\''");
    let mut r = String::from_str("'");
    r.append(inner.as_str());
    r.append("'");
    r
}

/// The command line that opens `path` in `editor`, the editor being `vim`
/// when none is set.
pub fn open_command(editor: Option<&str>, path: &str) -> (r: String)
    ensures
        r@ == open_command_text(
            match editor {
                Some(e) => e@,
                None => "vim"@,
            },
            path@,
        ),
{
    let e = match editor {
        Some(e) => e,
        None => "vim",
    };
    proof {
        reveal_strlit(" ");
        assert(" "@ =~= seq![' ']);
    }
    let mut r = joined(e, " ");
    let quoted = shell_escape(path);
    r.append(quoted.as_str());
    r
}

proof fn lemma_replace_single(s: Seq<char>)
    requires
        s.len() > 0,
    ensures
        replace_all(s, seq!['\''], escaped_quote()) == (if s[0] == '\'' {
            escaped_quote()
        } else {
            seq![s[0]]
        }) + replace_all(s.subrange(1, s.len() as int), seq!['\''], escaped_quote()),
{
    assert(s.subrange(0, 1) =~= seq![s[0]]);
    if s[0] == '\'' {
        assert(s.subrange(0, 1) == seq!['\'']);
    } else {
        assert(s.subrange(0, 1)[0] != seq!['\''][0]);
    }
}

/// Reading the quoted form of `s` followed by `rest`, from inside the quotes.
proof fn lemma_read_quoted_escaped(s: Seq<char>, rest: Seq<char>, acc: Seq<char>)
    ensures
        read_quoted(replace_all(s, seq!['\''], escaped_quote()) + seq!['\''] + rest, acc)
            == read_unquoted(rest, acc + s),
    decreases s.len(),
{
    let q = seq!['\''];
    if s.len() == 0 {
        assert(replace_all(s, q, escaped_quote()) =~= Seq::<char>::empty());
        let w = replace_all(s, q, escaped_quote()) + q + rest;
        assert(w =~= q + rest);
        assert(w.subrange(1, w.len() as int) =~= rest);
        assert(acc + s =~= acc);
        assert(read_quoted(w, acc) == read_unquoted(rest, acc));
    } else {
        let t = s.subrange(1, s.len() as int);
        lemma_replace_single(s);
        lemma_read_quoted_escaped(t, rest, acc.push(s[0]));
        let tail = replace_all(t, q, escaped_quote()) + q + rest;
        assert(acc.push(s[0]) + t =~= acc + s);
        if s[0] == '\'' {
            let w = escaped_quote() + tail;
            assert(replace_all(s, q, escaped_quote()) + q + rest =~= w);
            let w1 = w.subrange(1, w.len() as int);
            assert(w1 =~= seq!['\\', '\'', '\''] + tail);
            let w2 = w1.subrange(2, w1.len() as int);
            assert(w2 =~= seq!['\''] + tail);
            assert(w2.subrange(1, w2.len() as int) =~= tail);
            assert(read_quoted(w, acc) == read_unquoted(w1, acc));
            assert(read_unquoted(w1, acc) == read_unquoted(w2, acc.push('\'')));
            assert(read_unquoted(w2, acc.push('\'')) == read_quoted(tail, acc.push('\'')));
        } else {
            let w = seq![s[0]] + tail;
            assert(replace_all(s, q, escaped_quote()) + q + rest =~= w);
            assert(w.subrange(1, w.len() as int) =~= tail);
            assert(read_quoted(w, acc) == read_quoted(tail, acc.push(s[0])));
        }
    }
}

/// A shell reads the escaped form of any text back as exactly that text, in
/// one word: a file name cannot break out of its quotes.
pub proof fn lemma_shell_escape_reads_back(s: Seq<char>)
    ensures
        read_unquoted(shell_quoted(s), Seq::empty()) == Some(s),
{
    let q = seq!['\''];
    let w = shell_quoted(s);
    lemma_read_quoted_escaped(s, Seq::empty(), Seq::empty());
    assert(w.subrange(1, w.len() as int) =~= replace_all(s, q, escaped_quote()) + q + Seq::<char>::empty());
    assert(Seq::<char>::empty() + s =~= s);
}

} // verus!
