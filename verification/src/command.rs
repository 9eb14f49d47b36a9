//! Operator input: whitespace tokenization and command recognition.
//!
//! A command name is the first whitespace-separated token of a line. Any
//! non-empty prefix of `"continue"` selects the continue command; `help`,
//! `info`, `quit` and `exit` are recognized verbatim; anything else is
//! unknown and reported, never fatal.

use vstd::prelude::*;

verus! {

/// A parsed operator directive, derived from one line of input.
#[derive(Debug, PartialEq, Eq)]
pub enum Command {
    /// Resume the tracee and block for its next stop.
    Continue,
    /// Print pid and current lifecycle state.
    Info,
    /// Print the command summary.
    Help,
    /// End the session.
    Quit,
    /// Anything unrecognized; carries the raw line.
    Unknown(String),
}

/// The shape of a command, without payload, for use in specifications.
#[derive(Debug, Clone, Copy, PartialEq, Eq, Structural)]
pub enum CommandKind {
    Continue,
    Info,
    Help,
    Quit,
    Unknown,
}

impl Command {
    /// The payload-free shape of this command.
    pub open spec fn kind(self) -> CommandKind {
        match self {
            Command::Continue => CommandKind::Continue,
            Command::Info => CommandKind::Info,
            Command::Help => CommandKind::Help,
            Command::Quit => CommandKind::Quit,
            Command::Unknown(_) => CommandKind::Unknown,
        }
    }
}

/// The separator characters: the Unicode white-space set, as Rust's
/// `char::is_whitespace` recognizes it.
pub open spec fn is_ws_char(c: char) -> bool {
    ||| c == ' '
    ||| ('\u{09}' <= c && c <= '\u{0D}')
    ||| c == '\u{85}'
    ||| c == '\u{A0}'
    ||| c == '\u{1680}'
    ||| ('\u{2000}' <= c && c <= '\u{200A}')
    ||| c == '\u{2028}'
    ||| c == '\u{2029}'
    ||| c == '\u{202F}'
    ||| c == '\u{205F}'
    ||| c == '\u{3000}'
}

/// Executable mirror of `is_ws_char`.
pub fn is_whitespace_char(c: char) -> (r: bool)
    ensures
        r == is_ws_char(c),
{
    c == ' ' || ('\u{09}' <= c && c <= '\u{0D}') || c == '\u{85}' || c == '\u{A0}'
        || c == '\u{1680}' || ('\u{2000}' <= c && c <= '\u{200A}') || c == '\u{2028}'
        || c == '\u{2029}' || c == '\u{202F}' || c == '\u{205F}' || c == '\u{3000}'
}

/// Tokenization, one character at a time: `cur` is the token being built;
/// whitespace closes it, any other character extends it.
pub open spec fn split_ws_rec(s: Seq<char>, cur: Seq<char>) -> Seq<Seq<char>>
    decreases s.len(),
{
    if s.len() == 0 {
        if cur.len() == 0 {
            Seq::empty()
        } else {
            seq![cur]
        }
    } else if is_ws_char(s[0]) {
        if cur.len() == 0 {
            split_ws_rec(s.drop_first(), cur)
        } else {
            seq![cur] + split_ws_rec(s.drop_first(), Seq::empty())
        }
    } else {
        split_ws_rec(s.drop_first(), cur.push(s[0]))
    }
}

/// The whitespace-separated tokens of a line.
pub open spec fn spec_tokens(s: Seq<char>) -> Seq<Seq<char>> {
    split_ws_rec(s, Seq::empty())
}

/// `s` without its leading whitespace.
pub open spec fn spec_trim_start(s: Seq<char>) -> Seq<char>
    decreases s.len(),
{
    if s.len() == 0 {
        s
    } else if is_ws_char(s[0]) {
        spec_trim_start(s.drop_first())
    } else {
        s
    }
}

/// `s` without its trailing whitespace.
pub open spec fn spec_trim_end(s: Seq<char>) -> Seq<char>
    decreases s.len(),
{
    if s.len() == 0 {
        s
    } else if is_ws_char(s.last()) {
        spec_trim_end(s.drop_last())
    } else {
        s
    }
}

/// `s` without leading and trailing whitespace.
pub open spec fn spec_trim(s: Seq<char>) -> Seq<char> {
    spec_trim_end(spec_trim_start(s))
}

/// Strip leading and trailing whitespace from a line.
pub fn trim_str(line: &str) -> (r: String)
    ensures
        r@ == spec_trim(line@),
{
    let n = line.unicode_len();
    let mut a: usize = 0;
    proof {
        assert(line@.skip(0) =~= line@);
    }
    while a < n && is_whitespace_char(line.get_char(a))
        invariant
            a <= n,
            n == line@.len(),
            spec_trim_start(line@) == spec_trim_start(line@.skip(a as int)),
        decreases n - a,
    {
        proof {
            assert(line@.skip(a as int)[0] == line@[a as int]);
            assert(line@.skip(a as int).drop_first() =~= line@.skip(a as int + 1));
        }
        a = a + 1;
    }
    proof {
        if a == n {
            assert(line@.skip(a as int) =~= Seq::<char>::empty());
        }
        assert(spec_trim_start(line@) == line@.skip(a as int));
        assert(line@.skip(a as int) =~= line@.subrange(a as int, n as int));
    }
    let mut b: usize = n;
    while b > a && is_whitespace_char(line.get_char(b - 1))
        invariant
            a <= b <= n,
            n == line@.len(),
            spec_trim_end(line@.subrange(a as int, n as int)) == spec_trim_end(
                line@.subrange(a as int, b as int),
            ),
        decreases b,
    {
        proof {
            assert(line@.subrange(a as int, b as int).last() == line@[b as int - 1]);
            assert(line@.subrange(a as int, b as int).drop_last() =~= line@.subrange(
                a as int,
                b as int - 1,
            ));
        }
        b = b - 1;
    }
    proof {
        if b == a {
            assert(line@.subrange(a as int, b as int) =~= Seq::<char>::empty());
        }
        assert(spec_trim_end(line@.subrange(a as int, n as int)) == line@.subrange(
            a as int,
            b as int,
        ));
    }
    line.substring_char(a, b).to_owned()
}

/// `p` is an initial segment of `of`.
pub open spec fn is_prefix_of(p: Seq<char>, of: Seq<char>) -> bool {
    p.len() <= of.len() && p == of.subrange(0, p.len() as int)
}

/// What one line of input means: the first token decides, with prefix
/// matching against "continue" and exact matching for the rest. A line
/// without tokens recognizes nothing.
pub open spec fn parse_spec(line: Seq<char>) -> CommandKind {
    let toks = spec_tokens(line);
    if toks.len() == 0 {
        CommandKind::Unknown
    } else {
        let t = toks[0];
        if t.len() > 0 && is_prefix_of(t, "continue"@) {
            CommandKind::Continue
        } else if t == "help"@ {
            CommandKind::Help
        } else if t == "info"@ {
            CommandKind::Info
        } else if t == "quit"@ || t == "exit"@ {
            CommandKind::Quit
        } else {
            CommandKind::Unknown
        }
    }
}

/// A run of non-whitespace characters is one token, whatever was built
/// before it.
proof fn lemma_split_ws_rec_no_ws(s: Seq<char>, cur: Seq<char>)
    requires
        forall|k: int| 0 <= k < s.len() ==> !is_ws_char(s[k]),
    ensures
        cur.len() + s.len() > 0 ==> split_ws_rec(s, cur) == seq![cur + s],
        cur.len() + s.len() == 0 ==> split_ws_rec(s, cur) == Seq::<Seq<char>>::empty(),
    decreases s.len(),
{
    if s.len() == 0 {
        if cur.len() > 0 {
            assert(cur + s =~= cur);
        }
    } else {
        lemma_split_ws_rec_no_ws(s.drop_first(), cur.push(s[0]));
        assert(cur.push(s[0]) + s.drop_first() =~= cur + s);
    }
}

/// A non-empty line without whitespace is its own single token.
pub proof fn lemma_tokens_single(s: Seq<char>)
    requires
        s.len() > 0,
        forall|k: int| 0 <= k < s.len() ==> !is_ws_char(s[k]),
    ensures
        spec_tokens(s) == seq![s],
{
    lemma_split_ws_rec_no_ws(s, Seq::empty());
    assert(Seq::<char>::empty() + s =~= s);
}

/// Law: every non-empty prefix of `"continue"` parses as the continue
/// command.
pub proof fn lemma_continue_prefix_parses(p: Seq<char>)
    requires
        0 < p.len(),
        is_prefix_of(p, "continue"@),
    ensures
        parse_spec(p) == CommandKind::Continue,
{
    reveal_strlit("continue");
    assert forall|k: int| 0 <= k < p.len() implies !is_ws_char(p[k]) by {
        assert(p[k] == "continue"@.subrange(0, p.len() as int)[k]);
        assert(p[k] == "continue"@[k]);
    }
    lemma_tokens_single(p);
    assert(spec_tokens(p)[0] == p);
}
pub fn split_whitespace(line: &str) -> (r: Vec<String>)
    ensures
        r.deep_view() == spec_tokens(line@),
{
    let n = line.unicode_len();
    let mut toks: Vec<String> = Vec::new();
    let mut start: usize = 0;
    let mut i: usize = 0;
    proof {
        assert(line@.skip(0) =~= line@);
        assert(line@.subrange(0, 0) =~= Seq::<char>::empty());
        assert(toks.deep_view() =~= Seq::<Seq<char>>::empty());
        assert(Seq::<Seq<char>>::empty() + split_ws_rec(line@, Seq::empty()) =~= split_ws_rec(
            line@,
            Seq::empty(),
        ));
    }
    while i < n
        invariant
            n == line@.len(),
            start <= i <= n,
            spec_tokens(line@) == toks.deep_view() + split_ws_rec(
                line@.skip(i as int),
                line@.subrange(start as int, i as int),
            ),
        decreases n - i,
    {
        proof {
            assert(line@.skip(i as int).drop_first() =~= line@.skip(i as int + 1));
            assert(line@.skip(i as int)[0] == line@[i as int]);
        }
        let c = line.get_char(i);
        if is_whitespace_char(c) {
            if start < i {
                let ghost old_dv = toks.deep_view();
                let tok = line.substring_char(start, i).to_owned();
                toks.push(tok);
                proof {
                    assert(toks.deep_view() =~= old_dv.push(
                        line@.subrange(start as int, i as int),
                    ));
                    assert(old_dv + (seq![line@.subrange(start as int, i as int)]
                        + split_ws_rec(line@.skip(i as int + 1), Seq::empty()))
                        =~= toks.deep_view() + split_ws_rec(
                        line@.skip(i as int + 1),
                        Seq::empty(),
                    ));
                }
            }
            proof {
                assert(line@.subrange(i as int, i as int) =~= Seq::<char>::empty());
                assert(line@.subrange(i as int + 1, i as int + 1) =~= Seq::<char>::empty());
            }
            start = i + 1;
        } else {
            proof {
                assert(line@.subrange(start as int, i as int).push(line@[i as int])
                    =~= line@.subrange(start as int, i as int + 1));
            }
        }
        i = i + 1;
    }
    proof {
        assert(line@.skip(n as int) =~= Seq::<char>::empty());
    }
    if start < n {
        let ghost old_dv = toks.deep_view();
        let tok = line.substring_char(start, n).to_owned();
        toks.push(tok);
        proof {
            assert(toks.deep_view() =~= old_dv.push(line@.subrange(start as int, n as int)));
            assert(old_dv + seq![line@.subrange(start as int, n as int)] =~= toks.deep_view());
        }
    } else {
        proof {
            assert(toks.deep_view() + Seq::<Seq<char>>::empty() =~= toks.deep_view());
        }
    }
    toks
}

/// Whether `s` is an initial segment of `of`.
pub fn is_prefix(s: &str, of: &str) -> (r: bool)
    ensures
        r == is_prefix_of(s@, of@),
{
    let sn = s.unicode_len();
    let on = of.unicode_len();
    if sn > on {
        return false;
    }
    let mut i: usize = 0;
    while i < sn
        invariant
            i <= sn,
            sn == s@.len(),
            on == of@.len(),
            sn <= on,
            forall|k: int| 0 <= k < i ==> s@[k] == of@[k],
        decreases sn - i,
    {
        if s.get_char(i) != of.get_char(i) {
            proof {
                assert(of@.subrange(0, sn as int)[i as int] == of@[i as int]);
            }
            return false;
        }
        i = i + 1;
    }
    proof {
        assert(s@ =~= of@.subrange(0, sn as int));
    }
    true
}

/// Whether two string slices hold the same characters.
pub fn str_eq(a: &str, b: &str) -> (r: bool)
    ensures
        r == (a@ == b@),
{
    let an = a.unicode_len();
    let bn = b.unicode_len();
    if an != bn {
        return false;
    }
    let p = is_prefix(a, b);
    proof {
        assert(b@.subrange(0, an as int) =~= b@);
    }
    p
}

/// Parse one line of operator text into a command.
pub fn parse_command(line: &str) -> (r: Command)
    ensures
        r.kind() == parse_spec(line@),
        r matches Command::Unknown(t) ==> t@ == line@,
{
    let toks = split_whitespace(line);
    if toks.len() == 0 {
        proof {
            assert(toks.deep_view().len() == toks@.len());
        }
        return Command::Unknown(line.to_owned());
    }
    proof {
        assert(toks.deep_view().len() == toks@.len());
        assert(toks.deep_view()[0] == toks@[0]@);
    }
    let t = &toks[0];
    let ts = t.as_str();
    if ts.unicode_len() > 0 && is_prefix(ts, "continue") {
        Command::Continue
    } else if str_eq(ts, "help") {
        Command::Help
    } else if str_eq(ts, "info") {
        Command::Info
    } else if str_eq(ts, "quit") {
        Command::Quit
    } else if str_eq(ts, "exit") {
        Command::Quit
    } else {
        Command::Unknown(line.to_owned())
    }
}

} // verus!
