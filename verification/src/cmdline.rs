//! The command line shown for a job: the multiplexer's name and its
//! arguments, quoted where needed, and the way back from that line to the
//! arguments.

use crate::seqs::push_arg;
use crate::text::{chars_of, join, join_strings, string_of_range};
use vstd::prelude::*;
use vstd::string::StringExecFns;

verus! {

// ---------------------------------------------------------------------------
// Quoting
// ---------------------------------------------------------------------------

/// Whether an argument is written in double quotes: it holds a space or a
/// quote of either kind.
pub open spec fn needs_quotes(arg: Seq<char>) -> bool {
    arg.contains(' ') || arg.contains('"') || arg.contains('\'')
}

/// How one character is written between double quotes: a double quote and
/// a backslash get a backslash in front.
pub open spec fn escaped_char(c: char) -> Seq<char> {
    if c == '"' || c == '\\' {
        seq!['\\', c]
    } else {
        seq![c]
    }
}

/// The written form of each character of `arg`.
pub open spec fn escape_groups(arg: Seq<char>) -> Seq<Seq<char>> {
    Seq::new(arg.len(), |i: int| escaped_char(arg[i]))
}

/// `arg` with a backslash before each double quote and each backslash.
pub open spec fn escape_quotes(arg: Seq<char>) -> Seq<char> {
    escape_groups(arg).flatten()
}

/// How an argument is written on the command line.
pub open spec fn quoted(arg: Seq<char>) -> Seq<char> {
    if needs_quotes(arg) {
        seq!['"'] + escape_quotes(arg) + seq!['"']
    } else {
        arg
    }
}

/// Each argument as it is written.
pub open spec fn quoted_all(args: Seq<Seq<char>>) -> Seq<Seq<char>> {
    Seq::new(args.len(), |i: int| quoted(args[i]))
}

/// The command line for an argument list: the multiplexer's name, then each
/// argument as it is written, with single spaces between them.
pub open spec fn command_line(args: Seq<Seq<char>>) -> Seq<char> {
    join(seq!["mkvmerge"@] + quoted_all(args), " "@)
}

/// An argument as it is written on the command line: in double quotes,
/// with a backslash before each double quote and each backslash, where it
/// holds a space or a quote; else as it is.
pub fn quote_arg(arg: &str) -> (out: String)
    ensures
        out@ == quoted(arg@),
{
    let chars = chars_of(arg);
    let ghost groups = escape_groups(arg@);
    let mut plain = true;
    let mut body = String::new();
    let mut i: usize = 0;
    proof {
        crate::seqs::lemma_flatten_take_ends(groups);
    }
    while i < chars.len()
        invariant
            i <= chars.len(),
            chars@ == arg@,
            groups == escape_groups(arg@),
            body@ == groups.take(i as int).flatten(),
            plain == !needs_quotes(arg@.take(i as int)),
        decreases chars.len() - i,
    {
        proof {
            crate::seqs::lemma_flatten_take_step(groups, i as int);
            lemma_needs_quotes_push(arg@.take(i as int), arg@[i as int]);
            assert(arg@.take(i + 1) == arg@.take(i as int).push(arg@[i as int]));
        }
        let c = chars[i];
        if c == ' ' || c == '"' || c == '\'' {
            plain = false;
        }
        if c == '"' || c == '\\' {
            body.push('\\');
        }
        body.push(c);
        i += 1;
    }
    assert(arg@.take(i as int) == arg@);
    if plain {
        String::from_str(arg)
    } else {
        let mut out = String::new();
        out.push('"');
        out.append(body.as_str());
        out.push('"');
        assert(out@ == seq!['"'] + escape_quotes(arg@) + seq!['"']);
        out
    }
}

proof fn lemma_needs_quotes_push(s: Seq<char>, c: char)
    ensures
        needs_quotes(s.push(c)) == (needs_quotes(s) || c == ' ' || c == '"' || c == '\''),
{
    let t = s.push(c);
    assert forall|x: char| t.contains(x) == (s.contains(x) || c == x) by {
        if s.contains(x) {
            let k = choose|k: int| 0 <= k < s.len() && s[k] == x;
            assert(t[k] == x);
        }
        if c == x {
            assert(t[s.len() as int] == x);
        }
        if t.contains(x) {
            let k = choose|k: int| 0 <= k < t.len() && t[k] == x;
            if k < s.len() {
                assert(s[k] == x);
            }
        }
    }
}

/// The command line for an argument list. Splitting it gives the
/// multiplexer's name and the arguments back.
pub fn join_mkvmerge_command(args: &[String]) -> (out: String)
    ensures
        out@ == command_line(args.deep_view()),
        split_tokens(out@) == Some(seq!["mkvmerge"@] + args.deep_view()),
{
    proof {
        law_command_line_round_trip(args.deep_view());
    }
    let ghost wanted = seq!["mkvmerge"@] + quoted_all(args.deep_view());
    let mut parts: Vec<String> = Vec::new();
    push_arg(&mut parts, String::from_str("mkvmerge"));
    let mut i: usize = 0;
    assert(parts.deep_view() == wanted.take(1));
    while i < args.len()
        invariant
            i <= args.len(),
            wanted == seq!["mkvmerge"@] + quoted_all(args.deep_view()),
            parts.deep_view() == wanted.take(i + 1),
        decreases args.len() - i,
    {
        push_arg(&mut parts, quote_arg(args[i].as_str()));
        assert(wanted[i + 1] == quoted(args.deep_view()[i as int]));
        assert(wanted.take(i + 2) == wanted.take(i + 1).push(wanted[i + 1]));
        i += 1;
    }
    assert(wanted.take(i + 1) == wanted);
    join_strings(&parts, " ")
}

// ---------------------------------------------------------------------------
// Splitting
// ---------------------------------------------------------------------------

/// The length of the unquoted token at the start of `s`: up to the first
/// space or the end.
pub open spec fn bare_len(s: Seq<char>) -> nat
    decreases s.len(),
{
    if s.len() == 0 || s[0] == ' ' {
        0
    } else {
        1 + bare_len(s.skip(1))
    }
}

/// Reads a quoted token, the opening quote already taken: up to the closing
/// quote, where a backslash directly before a quote or a backslash stands
/// for that character.
/// Gives the token and what follows the closing quote; nothing where the
/// closing quote is missing.
pub open spec fn read_quoted(s: Seq<char>) -> Option<(Seq<char>, Seq<char>)>
    decreases s.len(),
{
    if s.len() == 0 {
        None
    } else if s[0] == '"' {
        Some((Seq::empty(), s.skip(1)))
    } else if s[0] == '\\' && s.len() >= 2 && (s[1] == '"' || s[1] == '\\') {
        match read_quoted(s.skip(2)) {
            Some((token, rest)) => Some((seq![s[1]] + token, rest)),
            None => None,
        }
    } else {
        match read_quoted(s.skip(1)) {
            Some((token, rest)) => Some((seq![s[0]] + token, rest)),
            None => None,
        }
    }
}

/// Reads one token from the start of `s`: a quoted one where `s` starts
/// with a double quote, else an unquoted one.
pub open spec fn read_token(s: Seq<char>) -> Option<(Seq<char>, Seq<char>)> {
    if s.len() > 0 && s[0] == '"' {
        read_quoted(s.skip(1))
    } else {
        Some((s.take(bare_len(s) as int), s.skip(bare_len(s) as int)))
    }
}

/// The tokens with one more in front, where there are tokens.
pub open spec fn prepend(token: Seq<char>, tokens: Option<Seq<Seq<char>>>) -> Option<
    Seq<Seq<char>>,
> {
    match tokens {
        Some(ts) => Some(seq![token] + ts),
        None => None,
    }
}

/// The tokens of a command line: tokens separated by single spaces.
/// Nothing where a quote is not closed or a closing quote is followed by
/// anything but a space. (What follows a token is never longer than the
/// text it was read from; the test on the lengths says so to the reader of
/// the recursion.)
pub open spec fn split_tokens(s: Seq<char>) -> Option<Seq<Seq<char>>>
    decreases s.len(),
{
    match read_token(s) {
        None => None,
        Some((token, rest)) => if rest.len() == 0 {
            Some(seq![token])
        } else if rest[0] == ' ' && rest.len() <= s.len() {
            prepend(token, split_tokens(rest.skip(1)))
        } else {
            None
        },
    }
}

/// Reads the unquoted token at `chars[from..]`; gives it and where it ends.
fn read_bare_token(chars: &Vec<char>, from: usize) -> (r: (String, usize))
    requires
        from <= chars.len(),
    ensures
        r.1 == from + bare_len(chars@.skip(from as int)),
        r.1 <= chars.len(),
        r.0@ == chars@.skip(from as int).take(bare_len(chars@.skip(from as int)) as int),
{
    let mut end: usize = from;
    while end < chars.len() && chars[end] != ' '
        invariant
            from <= end <= chars.len(),
            bare_len(chars@.skip(from as int)) == (end - from) + bare_len(
                chars@.skip(end as int),
            ),
        decreases chars.len() - end,
    {
        assert(chars@.skip(end as int).skip(1) == chars@.skip(end + 1));
        end += 1;
    }
    let token = string_of_range(chars, from, end);
    assert(chars@.subrange(from as int, end as int) == chars@.skip(from as int).take(
        end - from,
    ));
    (token, end)
}

/// Reads the quoted token whose text starts at `chars[from..]`, the opening
/// quote already taken; gives it and where the text after the closing quote
/// starts.
fn read_quoted_token(chars: &Vec<char>, from: usize) -> (r: Option<(String, usize)>)
    requires
        from <= chars.len(),
    ensures
        match read_quoted(chars@.skip(from as int)) {
            Some((token, rest)) => r matches Some((t, next)) && t@ == token && next <= chars.len()
                && rest == chars@.skip(next as int),
            None => r is None,
        },
{
    let ghost start = chars@.skip(from as int);
    let mut token = String::new();
    let mut i: usize = from;
    assert(Seq::<char>::empty() + Seq::<char>::empty() == Seq::<char>::empty());
    loop
        invariant
            from <= i <= chars.len(),
            start == chars@.skip(from as int),
            read_quoted(start) == (match read_quoted(chars@.skip(i as int)) {
                Some((t, rest)) => Some((token@ + t, rest)),
                None => None,
            }),
        decreases chars.len() - i,
    {
        let ghost here = chars@.skip(i as int);
        if i == chars.len() {
            return None;
        }
        let c = chars[i];
        assert(here[0] == c);
        if c == '"' {
            assert(here.skip(1) == chars@.skip(i + 1));
            assert(token@ + Seq::<char>::empty() == token@);
            return Some((token, i + 1));
        }
        if c == '\\' && i + 1 < chars.len() && (chars[i + 1] == '"' || chars[i + 1] == '\\') {
            let escaped = chars[i + 1];
            assert(here[1] == escaped);
            assert(here.skip(2) == chars@.skip(i + 2));
            let ghost before = token@;
            token.push(escaped);
            assert forall|t: Seq<char>| before + (seq![escaped] + t) == #[trigger] (token@
                + t) by {
                assert(before + (seq![escaped] + t) =~= token@ + t);
            }
            i += 2;
        } else {
            assert(!(here[0] == '\\' && here.len() >= 2 && (here[1] == '"' || here[1]
                == '\\')));
            assert(here.skip(1) == chars@.skip(i + 1));
            let ghost before = token@;
            token.push(c);
            assert forall|t: Seq<char>| before + (seq![c] + t) == #[trigger] (token@ + t) by {
                assert(before + (seq![c] + t) =~= token@ + t);
            }
            i += 1;
        }
    }
}

/// The tokens with others in front, where there are tokens.
pub open spec fn prepend_all(tokens: Seq<Seq<char>>, more: Option<Seq<Seq<char>>>) -> Option<
    Seq<Seq<char>>,
> {
    match more {
        Some(ts) => Some(tokens + ts),
        None => None,
    }
}

/// What follows a token is never longer than the text it was read from.
pub proof fn lemma_read_token_rest(s: Seq<char>)
    ensures
        read_token(s) matches Some((token, rest)) ==> rest.len() <= s.len(),
{
    if s.len() > 0 && s[0] == '"' {
        lemma_read_quoted_rest(s.skip(1));
    } else {
        lemma_bare_len_bound(s);
    }
}

proof fn lemma_bare_len_bound(s: Seq<char>)
    ensures
        bare_len(s) <= s.len(),
    decreases s.len(),
{
    if s.len() > 0 && s[0] != ' ' {
        lemma_bare_len_bound(s.skip(1));
    }
}

proof fn lemma_read_quoted_rest(s: Seq<char>)
    ensures
        read_quoted(s) matches Some((token, rest)) ==> rest.len() < s.len(),
    decreases s.len(),
{
    if s.len() == 0 {
    } else if s[0] == '"' {
    } else if s[0] == '\\' && s.len() >= 2 && (s[1] == '"' || s[1] == '\\') {
        lemma_read_quoted_rest(s.skip(2));
    } else {
        lemma_read_quoted_rest(s.skip(1));
    }
}

/// The tokens of a command line, or nothing where the line is malformed.
pub fn split_command_line(line: &str) -> (r: Option<Vec<String>>)
    ensures
        r.deep_view() == split_tokens(line@),
{
    let chars = chars_of(line);
    let mut tokens: Vec<String> = Vec::new();
    let mut pos: usize = 0;
    proof {
        assert(chars@.skip(0) == chars@);
        assert(tokens.deep_view() == Seq::<Seq<char>>::empty());
        assert forall|ts: Seq<Seq<char>>| Seq::<Seq<char>>::empty() + ts == ts by {
            assert(Seq::<Seq<char>>::empty() + ts =~= ts);
        }
    }
    loop
        invariant
            pos <= chars.len(),
            chars@ == line@,
            split_tokens(line@) == prepend_all(
                tokens.deep_view(),
                split_tokens(chars@.skip(pos as int)),
            ),
        decreases chars.len() - pos,
    {
        let ghost here = chars@.skip(pos as int);
        let ghost done = tokens.deep_view();
        let token: String;
        let next: usize;
        if pos < chars.len() && chars[pos] == '"' {
            assert(here[0] == '"');
            assert(here.skip(1) == chars@.skip(pos + 1));
            match read_quoted_token(&chars, pos + 1) {
                Some((t, n)) => {
                    token = t;
                    next = n;
                },
                None => {
                    return None;
                },
            }
        } else {
            assert(here.len() > 0 ==> here[0] == chars@[pos as int]);
            let (t, n) = read_bare_token(&chars, pos);
            token = t;
            next = n;
            assert(here.skip(bare_len(here) as int) == chars@.skip(next as int));
        }
        let ghost rest = chars@.skip(next as int);
        assert(read_token(here) == Some((token@, rest)));
        proof {
            lemma_read_token_rest(here);
        }
        push_arg(&mut tokens, token);
        if next == chars.len() {
            assert(done + seq![token@] == done.push(token@));
            return Some(tokens);
        }
        assert(rest[0] == chars@[next as int]);
        if chars[next] != ' ' {
            return None;
        }
        proof {
            assert(rest.skip(1) == chars@.skip(next + 1));
            assert forall|ts: Seq<Seq<char>>| done + (seq![token@] + ts) == #[trigger] (done.push(
                token@,
            ) + ts) by {
                assert(done + (seq![token@] + ts) =~= done.push(token@) + ts);
            }
        }
        pos = next + 1;
    }
}

// ---------------------------------------------------------------------------
// There and back
// ---------------------------------------------------------------------------

proof fn lemma_escape_front(arg: Seq<char>)
    requires
        arg.len() > 0,
    ensures
        escape_quotes(arg) == escaped_char(arg[0]) + escape_quotes(arg.skip(1)),
{
    let groups = escape_groups(arg);
    assert(groups.drop_first() == escape_groups(arg.skip(1)));
    assert(groups.first() == escaped_char(arg[0]));
}

proof fn lemma_bare_len_plain(arg: Seq<char>, tail: Seq<char>)
    requires
        !arg.contains(' '),
        tail.len() == 0 || tail[0] == ' ',
    ensures
        bare_len(arg + tail) == arg.len(),
    decreases arg.len(),
{
    let s = arg + tail;
    if arg.len() == 0 {
        assert(s == tail);
    } else {
        assert(arg.contains(arg[0]));
        assert(s[0] == arg[0]);
        assert(s.skip(1) == arg.skip(1) + tail);
        assert forall|k: int| 0 <= k < arg.skip(1).len() implies arg.skip(1)[k] != ' ' by {
            assert(arg.contains(arg[k + 1]));
        }
        lemma_bare_len_plain(arg.skip(1), tail);
    }
}

/// Reading what was escaped, up to the closing quote, gives the argument
/// back.
proof fn lemma_read_escaped(arg: Seq<char>, tail: Seq<char>)
    ensures
        read_quoted(escape_quotes(arg) + seq!['"'] + tail) == Some((arg, tail)),
    decreases arg.len(),
{
    let s = escape_quotes(arg) + seq!['"'] + tail;
    if arg.len() == 0 {
        assert(escape_groups(arg) == Seq::<Seq<char>>::empty());
        assert(escape_quotes(arg) == Seq::<char>::empty());
        assert(s[0] == '"');
        assert(s.skip(1) == tail);
    } else {
        let rest = arg.skip(1);
        let after = escape_quotes(rest) + seq!['"'] + tail;
        lemma_escape_front(arg);
        lemma_read_escaped(rest, tail);
        if arg[0] == '"' || arg[0] == '\\' {
            assert(s[0] == '\\' && s[1] == arg[0]);
            assert(s.skip(2) == after);
        } else {
            assert(s[0] == arg[0]);
            assert(s.skip(1) == after);
        }
        assert(seq![arg[0]] + rest == arg);
    }
}

/// Reading an argument as it is written gives the argument back, and
/// leaves what followed it.
proof fn lemma_read_written(arg: Seq<char>, tail: Seq<char>)
    requires
        tail.len() == 0 || tail[0] == ' ',
    ensures
        read_token(quoted(arg) + tail) == Some((arg, tail)),
{
    let s = quoted(arg) + tail;
    if needs_quotes(arg) {
        assert(s[0] == '"');
        assert(s.skip(1) == escape_quotes(arg) + seq!['"'] + tail);
        lemma_read_escaped(arg, tail);
    } else {
        if arg.len() > 0 {
            assert(arg.contains(arg[0]));
            assert(s[0] == arg[0]);
        } else {
            assert(s == tail);
        }
        lemma_bare_len_plain(arg, tail);
        assert(s.take(arg.len() as int) == arg);
        assert(s.skip(arg.len() as int) == tail);
    }
}

proof fn lemma_join_front(parts: Seq<Seq<char>>, sep: Seq<char>)
    requires
        parts.len() >= 2,
    ensures
        join(parts, sep) == parts[0] + sep + join(parts.skip(1), sep),
    decreases parts.len(),
{
    if parts.len() == 2 {
        assert(parts.drop_last().len() == 1);
        assert(parts.skip(1).len() == 1);
        assert(join(parts.drop_last(), sep) == parts[0]);
        assert(join(parts.skip(1), sep) == parts[1]);
    } else {
        lemma_join_front(parts.drop_last(), sep);
        assert(parts.drop_last().skip(1) == parts.skip(1).drop_last());
        assert(parts.skip(1).last() == parts.last());
        assert(join(parts.skip(1), sep) == join(parts.skip(1).drop_last(), sep) + sep
            + parts.last());
        assert(join(parts, sep) == parts[0] + sep + join(parts.skip(1).drop_last(), sep) + sep
            + parts.last());
        assert(parts[0] + sep + join(parts.skip(1).drop_last(), sep) + sep + parts.last()
            == parts[0] + sep + (join(parts.skip(1).drop_last(), sep) + sep + parts.last()));
    }
}

/// Splitting the written forms of `parts`, joined by single spaces, gives
/// `parts` back.
proof fn lemma_split_written(parts: Seq<Seq<char>>)
    requires
        parts.len() >= 1,
    ensures
        split_tokens(join(quoted_all(parts), seq![' '])) == Some(parts),
    decreases parts.len(),
{
    let written = quoted_all(parts);
    let line = join(written, seq![' ']);
    if parts.len() == 1 {
        assert(line == quoted(parts[0]));
        lemma_read_written(parts[0], Seq::empty());
        assert(quoted(parts[0]) + Seq::<char>::empty() == quoted(parts[0]));
        assert(seq![parts[0]] == parts);
    } else {
        let others = parts.skip(1);
        let tail = seq![' '] + join(quoted_all(others), seq![' ']);
        lemma_join_front(written, seq![' ']);
        assert(written.skip(1) == quoted_all(others));
        assert(line == quoted(parts[0]) + tail);
        lemma_read_written(parts[0], tail);
        lemma_read_token_rest(line);
        assert(tail.skip(1) == join(quoted_all(others), seq![' ']));
        lemma_split_written(others);
        assert(seq![parts[0]] + others == parts);
    }
}

/// Splitting the command line of an argument list gives the multiplexer's
/// name and then the same arguments, whatever the arguments hold.
pub proof fn law_command_line_round_trip(args: Seq<Seq<char>>)
    ensures
        split_tokens(command_line(args)) == Some(seq!["mkvmerge"@] + args),
{
    reveal_strlit("mkvmerge");
    reveal_strlit(" ");
    let name = "mkvmerge"@;
    let parts = seq![name] + args;
    assert(" "@ == seq![' ']);
    assert(!needs_quotes(name)) by {
        assert forall|k: int| 0 <= k < name.len() implies name[k] != ' ' && name[k] != '"'
            && name[k] != '\'' by {}
    }
    assert(quoted(name) == name);
    assert(quoted_all(parts) == seq![name] + quoted_all(args));
    lemma_split_written(parts);
}

} // verus!
