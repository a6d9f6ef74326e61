//! The outgoing-command parser: a pure function from a raw user-entered line
//! to a protocol operation or a parse error.
//!
//! A line is split on single spaces into tokens; the first token selects the
//! directive. A second token beginning with `#` is consumed, and bound as the
//! operation's target channel when the protocol collaborator's channel-name
//! predicate accepts it. The remaining tokens, rejoined with single spaces,
//! form the operation's payload. A line with no leading `/` or `@` is an
//! implicit private message to the current channel; a line `@name rest` is a
//! private message to `name` with body `rest`.

use vstd::prelude::*;

use irc::proto::ChannelExt;

verus! {

// ------------------------------------------------------------------
// The token model: splitting a line on spaces, and rejoining tokens
// with single spaces. Splitting keeps empty tokens, so rejoining the
// split of a line gives the line back unchanged.
// ------------------------------------------------------------------

/// The tokens of `s`: maximal runs of characters between space characters.
/// Always at least one token; empty tokens are kept.
pub open spec fn split_spaces(s: Seq<char>) -> Seq<Seq<char>>
    decreases s.len(),
{
    if s.len() == 0 {
        seq![Seq::<char>::empty()]
    } else if s[0] == ' ' {
        seq![Seq::<char>::empty()] + split_spaces(s.skip(1))
    } else {
        let rest = split_spaces(s.skip(1));
        seq![seq![s[0]] + rest[0]] + rest.skip(1)
    }
}

/// The tokens of `ts` rejoined with a single space between neighbours.
pub open spec fn join_spaces(ts: Seq<Seq<char>>) -> Seq<char>
    decreases ts.len(),
{
    if ts.len() == 0 {
        Seq::<char>::empty()
    } else if ts.len() == 1 {
        ts[0]
    } else {
        ts[0] + seq![' '] + join_spaces(ts.skip(1))
    }
}

pub proof fn lemma_split_spaces_len(s: Seq<char>)
    ensures
        split_spaces(s).len() >= 1,
    decreases s.len(),
{
    if s.len() == 0 {
    } else {
        lemma_split_spaces_len(s.skip(1));
    }
}

/// Splitting at the first space: the part before it is the first token, and
/// the rest of the tokens are the tokens of the part after it.
pub proof fn lemma_split_at_space(s: Seq<char>, i: int)
    requires
        0 <= i < s.len(),
        s[i] == ' ',
        forall|j: int| 0 <= j < i ==> s[j] != ' ',
    ensures
        split_spaces(s) == seq![s.take(i)] + split_spaces(s.skip(i + 1)),
    decreases i,
{
    if i == 0 {
        assert(s.take(0) =~= Seq::<char>::empty());
        assert(s.skip(1) =~= s.skip(0int + 1));
    } else {
        let s1 = s.skip(1);
        assert(forall|j: int| 0 <= j < i - 1 ==> s1[j] != ' ');
        lemma_split_at_space(s1, i - 1);
        lemma_split_spaces_len(s1.skip(i));
        let rest = split_spaces(s1);
        assert(rest == seq![s1.take(i - 1)] + split_spaces(s1.skip(i)));
        assert(rest[0] == s1.take(i - 1));
        assert(seq![s[0]] + s1.take(i - 1) =~= s.take(i));
        assert(rest.skip(1) =~= split_spaces(s1.skip(i)));
        assert(s1.skip(i) =~= s.skip(i + 1));
        assert(split_spaces(s) =~= seq![s.take(i)] + split_spaces(s.skip(i + 1)));
    }
}

/// A line without spaces is a single token.
pub proof fn lemma_split_no_space(s: Seq<char>)
    requires
        forall|j: int| 0 <= j < s.len() ==> s[j] != ' ',
    ensures
        split_spaces(s) == seq![s],
    decreases s.len(),
{
    if s.len() == 0 {
        assert(Seq::<char>::empty() =~= s);
    } else {
        let s1 = s.skip(1);
        lemma_split_no_space(s1);
        let rest = split_spaces(s1);
        assert(seq![s[0]] + s1 =~= s);
        assert(rest.skip(1) =~= Seq::<Seq<char>>::empty());
        assert(split_spaces(s) =~= seq![s]);
    }
}

/// Joining after appending one token on the right.
pub proof fn lemma_join_push(ts: Seq<Seq<char>>, t: Seq<char>)
    ensures
        join_spaces(ts.push(t)) == if ts.len() == 0 {
            t
        } else {
            join_spaces(ts) + seq![' '] + t
        },
    decreases ts.len(),
{
    if ts.len() == 0 {
        assert(ts.push(t)[0] == t);
    } else if ts.len() == 1 {
        assert(ts.push(t).skip(1) =~= seq![t]);
        assert(ts.push(t)[0] == ts[0]);
        assert(join_spaces(seq![t]) == t);
        assert(join_spaces(ts.push(t)) == ts[0] + seq![' '] + t);
    } else {
        assert(ts.push(t).skip(1) =~= ts.skip(1).push(t));
        lemma_join_push(ts.skip(1), t);
        assert(ts[0] + seq![' '] + (join_spaces(ts.skip(1)) + seq![' '] + t) =~= (ts[0]
            + seq![' '] + join_spaces(ts.skip(1))) + seq![' '] + t);
    }
}

/// Rejoining the tokens of a line gives the line back: splitting loses
/// nothing, not even repeated spaces.
pub proof fn lemma_join_split_round_trip(s: Seq<char>)
    ensures
        join_spaces(split_spaces(s)) == s,
    decreases s.len(),
{
    if s.len() == 0 {
    } else {
        let s1 = s.skip(1);
        lemma_join_split_round_trip(s1);
        lemma_split_spaces_len(s1);
        let rest = split_spaces(s1);
        if s[0] == ' ' {
            assert(split_spaces(s) == seq![Seq::<char>::empty()] + rest);
            let whole = seq![Seq::<char>::empty()] + rest;
            assert(whole.skip(1) =~= rest);
            assert(whole.len() >= 2);
            assert(join_spaces(whole) == Seq::<char>::empty() + seq![' '] + join_spaces(rest));
            assert(Seq::<char>::empty() + seq![' '] + s1 =~= s);
        } else {
            let whole = seq![seq![s[0]] + rest[0]] + rest.skip(1);
            assert(split_spaces(s) == whole);
            if rest.len() == 1 {
                assert(whole.len() == 1);
                assert(join_spaces(rest) == rest[0]);
                assert(join_spaces(whole) == seq![s[0]] + rest[0]);
                assert(seq![s[0]] + s1 =~= s);
            } else {
                assert(whole.len() >= 2);
                assert(whole.skip(1) =~= rest.skip(1));
                assert(join_spaces(whole) == (seq![s[0]] + rest[0]) + seq![' ']
                    + join_spaces(rest.skip(1)));
                assert(join_spaces(rest) == rest[0] + seq![' '] + join_spaces(rest.skip(1)));
                assert((seq![s[0]] + rest[0]) + seq![' '] + join_spaces(rest.skip(1)) =~= seq![s[0]]
                    + join_spaces(rest));
                assert(seq![s[0]] + s1 =~= s);
            }
        }
    }
}

/// The views of a vector of owned tokens.
pub open spec fn token_views(toks: Seq<String>) -> Seq<Seq<char>> {
    toks.map_values(|t: String| t@)
}

/// Splits a line into its tokens, one owned string per token.
pub fn split_line(s: &str) -> (r: Vec<String>)
    ensures
        token_views(r@) == split_spaces(s@),
        r@.len() >= 1,
{
    let n = s.unicode_len();
    let mut toks: Vec<String> = Vec::new();
    let mut start: usize = 0;
    let mut i: usize = 0;
    proof {
        assert(s@.skip(0) =~= s@);
        assert(token_views(toks@) + split_spaces(s@) =~= split_spaces(s@));
    }
    while i < n
        invariant
            n == s@.len(),
            0 <= start <= i <= n,
            forall|j: int| start <= j < i ==> s@[j] != ' ',
            split_spaces(s@) == token_views(toks@) + split_spaces(s@.skip(start as int)),
        decreases n - i,
    {
        if s.get_char(i) == ' ' {
            let tok = String::from_str(s.substring_char(start, i));
            proof {
                lemma_split_at_space(s@.skip(start as int), i - start);
                assert(s@.skip(start as int).take(i - start) =~= s@.subrange(
                    start as int,
                    i as int,
                ));
                assert(s@.skip(start as int).skip(i - start + 1) =~= s@.skip(i + 1));
                assert(token_views(toks@.push(tok)) =~= token_views(toks@) + seq![tok@]);
                assert(token_views(toks@) + (seq![tok@] + split_spaces(s@.skip(i + 1))) =~= (
                token_views(toks@) + seq![tok@]) + split_spaces(s@.skip(i + 1)));
            }
            toks.push(tok);
            start = i + 1;
        }
        i += 1;
    }
    let tok = String::from_str(s.substring_char(start, n));
    proof {
        lemma_split_no_space(s@.skip(start as int));
        assert(s@.subrange(start as int, n as int) =~= s@.skip(start as int));
        assert(token_views(toks@.push(tok)) =~= token_views(toks@) + seq![tok@]);
        assert(token_views(toks@) + seq![s@.skip(start as int)] =~= split_spaces(s@));
    }
    toks.push(tok);
    toks
}

/// Rejoins the tokens from index `from` on, with a single space between
/// neighbours.
pub fn join_from(toks: &Vec<String>, from: usize) -> (r: String)
    requires
        from <= toks@.len(),
    ensures
        r@ == join_spaces(token_views(toks@).skip(from as int)),
{
    let ghost views = token_views(toks@);
    let mut out = String::new();
    let mut i = from;
    while i < toks.len()
        invariant
            from <= i <= toks@.len(),
            views == token_views(toks@),
            out@ == join_spaces(views.subrange(from as int, i as int)),
        decreases toks@.len() - i,
    {
        proof {
            lemma_join_push(views.subrange(from as int, i as int), views[i as int]);
            assert(views.subrange(from as int, i + 1) =~= views.subrange(
                from as int,
                i as int,
            ).push(views[i as int]));
            reveal_strlit(" ");
            assert(" "@ =~= seq![' ']);
            assert(views[i as int] == toks@[i as int]@);
        }
        if i > from {
            out.append(" ");
        } else {
            assert(views.subrange(from as int, i as int) =~= Seq::<Seq<char>>::empty());
        }
        out.append(toks[i].as_str());
        i += 1;
    }
    proof {
        assert(views.subrange(from as int, toks@.len() as int) =~= views.skip(from as int));
    }
    out
}

// ------------------------------------------------------------------
// Operations and parse errors.
// ------------------------------------------------------------------

/// A parsed outgoing protocol action, ready for the session manager to
/// execute.
#[derive(Debug, Clone, PartialEq, Eq)]
pub enum Operation {
    /// A chat message to a channel or a user.
    Privmsg { target: String, body: String },
    /// Join a channel.
    Join { channel: String },
    /// Leave a channel.
    Part { channel: String },
    /// Invite a user to a channel.
    Invite { channel: String, name: String },
    /// Set a channel's topic.
    Topic { channel: String, text: String },
    /// Quit the session, with a parting message.
    Quit { message: String },
}

/// The mathematical value of an [`Operation`].
pub enum OperationView {
    Privmsg { target: Seq<char>, body: Seq<char> },
    Join { channel: Seq<char> },
    Part { channel: Seq<char> },
    Invite { channel: Seq<char>, name: Seq<char> },
    Topic { channel: Seq<char>, text: Seq<char> },
    Quit { message: Seq<char> },
}

impl View for Operation {
    type V = OperationView;

    open spec fn view(&self) -> OperationView {
        match self {
            Operation::Privmsg { target, body } => OperationView::Privmsg {
                target: target@,
                body: body@,
            },
            Operation::Join { channel } => OperationView::Join { channel: channel@ },
            Operation::Part { channel } => OperationView::Part { channel: channel@ },
            Operation::Invite { channel, name } => OperationView::Invite {
                channel: channel@,
                name: name@,
            },
            Operation::Topic { channel, text } => OperationView::Topic {
                channel: channel@,
                text: text@,
            },
            Operation::Quit { message } => OperationView::Quit { message: message@ },
        }
    }
}

/// The error of [`parse`]: the directive was not recognized, or a required
/// target or payload was absent.
#[derive(Debug, Clone, Copy, PartialEq, Eq, Structural)]
pub enum ParseError {
    /// The line began with `/` but the directive is not one of the
    /// recognized commands.
    UnknownCommand,
    /// The directive requires a target or payload that the line lacks.
    MissingArgument,
}

/// The view of a parse result: the operation's view on success, the error
/// unchanged on failure.
pub open spec fn parse_result_view(r: Result<Operation, ParseError>) -> Result<
    OperationView,
    ParseError,
> {
    match r {
        Ok(op) => Ok(op@),
        Err(e) => Err(e),
    }
}

// ------------------------------------------------------------------
// The meaning of a raw line.
// ------------------------------------------------------------------

/// The protocol collaborator's channel-name predicate: a name beginning with
/// one of the four channel sigils.
pub open spec fn spec_is_channel_name(s: Seq<char>) -> bool {
    s.len() > 0 && (s[0] == '#' || s[0] == '&' || s[0] == '+' || s[0] == '!')
}

/// Whether the second token is consumed as a channel token: present and
/// beginning with `#`.
pub open spec fn channel_token_consumed(ts: Seq<Seq<char>>) -> bool {
    ts.len() > 1 && ts[1].len() > 0 && ts[1][0] == '#'
}

/// The channel bound by the line, if any: the consumed channel token, when
/// the collaborator's predicate accepts it.
pub open spec fn explicit_channel(ts: Seq<Seq<char>>) -> Option<Seq<char>> {
    if channel_token_consumed(ts) && spec_is_channel_name(ts[1]) {
        Some(ts[1])
    } else {
        None
    }
}

/// The argument tokens of the line: everything after the directive and after
/// the consumed channel token, if there was one.
pub open spec fn directive_args(ts: Seq<Seq<char>>) -> Seq<Seq<char>> {
    if channel_token_consumed(ts) {
        ts.skip(2)
    } else {
        ts.skip(1)
    }
}

/// The operation selected by a line beginning with `/`, from its tokens and
/// the current channel.
pub open spec fn spec_parse_directive(ts: Seq<Seq<char>>, current: Seq<char>) -> Result<
    OperationView,
    ParseError,
> {
    let args = directive_args(ts);
    if ts[0] == "/PRIVMESSAGE"@ {
        match explicit_channel(ts) {
            Some(c) => Ok(OperationView::Privmsg { target: c, body: join_spaces(args) }),
            None => if args.len() > 0 {
                Ok(OperationView::Privmsg { target: args[0], body: join_spaces(args.skip(1)) })
            } else {
                Err(ParseError::MissingArgument)
            },
        }
    } else if ts[0] == "/JOIN"@ {
        match explicit_channel(ts) {
            Some(c) => Ok(OperationView::Join { channel: c }),
            None => if args.len() > 0 {
                Ok(OperationView::Join { channel: join_spaces(args) })
            } else {
                Ok(OperationView::Join { channel: current })
            },
        }
    } else if ts[0] == "/PART"@ {
        match explicit_channel(ts) {
            Some(c) => Ok(OperationView::Part { channel: c }),
            None => if args.len() > 0 {
                Ok(OperationView::Part { channel: join_spaces(args) })
            } else {
                Ok(OperationView::Part { channel: current })
            },
        }
    } else if ts[0] == "/INVITE"@ {
        if args.len() > 0 {
            let chan = match explicit_channel(ts) {
                Some(c) => c,
                None => current,
            };
            Ok(OperationView::Invite { channel: chan, name: join_spaces(args) })
        } else {
            Err(ParseError::MissingArgument)
        }
    } else if ts[0] == "/TOPIC"@ {
        if args.len() > 0 {
            let chan = match explicit_channel(ts) {
                Some(c) => c,
                None => current,
            };
            Ok(OperationView::Topic { channel: chan, text: join_spaces(args) })
        } else {
            Err(ParseError::MissingArgument)
        }
    } else if ts[0] == "/Quit"@ {
        Ok(OperationView::Quit { message: join_spaces(args) })
    } else {
        Err(ParseError::UnknownCommand)
    }
}

/// The meaning of a raw user-entered line, given the currently bound
/// channel: a `/` line selects a directive; an `@name rest` line is a
/// private message to `name` with body `rest`; any other line is a private
/// message to the current channel with the whole line as body.
pub open spec fn spec_parse(line: Seq<char>, current: Seq<char>) -> Result<
    OperationView,
    ParseError,
> {
    if line.len() > 0 && line[0] == '@' {
        let ts = split_spaces(line.skip(1));
        Ok(OperationView::Privmsg { target: ts[0], body: join_spaces(ts.skip(1)) })
    } else if line.len() > 0 && line[0] == '/' {
        spec_parse_directive(split_spaces(line), current)
    } else {
        Ok(OperationView::Privmsg { target: current, body: line })
    }
}

// ------------------------------------------------------------------
// Laws of parsing.
// ------------------------------------------------------------------

/// The directives that take a channel target.
pub open spec fn channel_directive(t: Seq<char>) -> bool {
    t == "/PRIVMESSAGE"@ || t == "/JOIN"@ || t == "/PART"@ || t == "/INVITE"@ || t == "/TOPIC"@
}

/// The channel (or, for a private message, the target) that an operation is
/// aimed at.
pub open spec fn op_channel(op: OperationView) -> Option<Seq<char>> {
    match op {
        OperationView::Privmsg { target, body } => Some(target),
        OperationView::Join { channel } => Some(channel),
        OperationView::Part { channel } => Some(channel),
        OperationView::Invite { channel, name } => Some(channel),
        OperationView::Topic { channel, text } => Some(channel),
        OperationView::Quit { message } => None,
    }
}

/// A line whose directive takes a channel, and whose second token is a
/// well-formed `#`-prefixed channel token, parses to an operation bound to
/// exactly that channel. (An invitation or a topic still needs a payload;
/// without one the line is rejected and nothing is bound.)
pub proof fn lemma_parse_binds_channel(line: Seq<char>, current: Seq<char>)
    requires
        line.len() > 0,
        line[0] == '/',
        channel_directive(split_spaces(line)[0]),
        channel_token_consumed(split_spaces(line)),
        spec_is_channel_name(split_spaces(line)[1]),
        (split_spaces(line)[0] == "/INVITE"@ || split_spaces(line)[0] == "/TOPIC"@)
            ==> directive_args(split_spaces(line)).len() > 0,
    ensures
        spec_parse(line, current) matches Ok(op) && op_channel(op) == Some(
            split_spaces(line)[1],
        ),
{
    reveal_strlit("/PRIVMESSAGE");
    reveal_strlit("/JOIN");
    reveal_strlit("/PART");
    reveal_strlit("/INVITE");
    reveal_strlit("/TOPIC");
    reveal_strlit("/Quit");
    let ts = split_spaces(line);
    assert(explicit_channel(ts) == Some(ts[1]));
}

/// A line with no leading `/` or `@` is an implicit private message to the
/// current channel, whose body is the whole line, character for character.
pub proof fn lemma_parse_implicit_line(line: Seq<char>, current: Seq<char>)
    requires
        line.len() > 0 ==> (line[0] != '/' && line[0] != '@'),
    ensures
        spec_parse(line, current) == Ok::<OperationView, ParseError>(
            OperationView::Privmsg { target: current, body: line },
        ),
{
}

/// A line `@name rest` is a private message to `name` whose body is `rest`:
/// the `@` sigil and the name are split off, and what remains after the
/// separating space is the body, unchanged.
pub proof fn lemma_parse_at_name(line: Seq<char>, current: Seq<char>)
    requires
        line.len() > 0,
        line[0] == '@',
    ensures
        ({
            let ts = split_spaces(line.skip(1));
            let name = ts[0];
            let body = join_spaces(ts.skip(1));
            spec_parse(line, current) == Ok::<OperationView, ParseError>(
                OperationView::Privmsg { target: name, body: body },
            ) && (ts.len() == 1 ==> body == Seq::<char>::empty() && name == line.skip(1)) && (
            ts.len() > 1 ==> line.skip(1) == name + seq![' '] + body)
        }),
{
    let rest = line.skip(1);
    let ts = split_spaces(rest);
    lemma_split_spaces_len(rest);
    lemma_join_split_round_trip(rest);
    if ts.len() == 1 {
        assert(ts.skip(1) =~= Seq::<Seq<char>>::empty());
        assert(join_spaces(ts) == ts[0]);
    } else {
        assert(join_spaces(ts) == ts[0] + seq![' '] + join_spaces(ts.skip(1)));
    }
}

// ------------------------------------------------------------------
// Executable parsing.
// ------------------------------------------------------------------

/// Relies on `irc_proto::chan::ChannelExt::is_channel_name` for `&str`: true
/// exactly when the string starts with `#`, `&`, `+` or `!`.
#[verifier::external_body]
fn channel_name_accepted(s: &str) -> (r: bool)
    ensures
        r == spec_is_channel_name(s@),
{
    s.is_channel_name()
}

/// Whether the first character of `s` is `c`.
fn first_char_is(s: &str, c: char) -> (r: bool)
    ensures
        r == (s@.len() > 0 && s@[0] == c),
{
    let n = s.unicode_len();
    if n == 0 {
        false
    } else {
        s.get_char(0) == c
    }
}

/// Whether two strings hold the same characters.
fn str_eq(a: &str, b: &str) -> (r: bool)
    ensures
        r == (a@ == b@),
{
    let na = a.unicode_len();
    let nb = b.unicode_len();
    if na != nb {
        assert(a@ != b@) by {
            assert(a@.len() != b@.len());
        }
        return false;
    }
    let mut i: usize = 0;
    while i < na
        invariant
            na == a@.len(),
            na == b@.len(),
            0 <= i <= na,
            forall|j: int| 0 <= j < i ==> a@[j] == b@[j],
        decreases na - i,
    {
        if a.get_char(i) != b.get_char(i) {
            return false;
        }
        i += 1;
    }
    assert(a@ =~= b@);
    true
}

/// Parses one raw user-entered line against the currently bound channel.
/// Returns the selected operation, or says exactly why the line is
/// rejected: an unrecognized `/` directive, or a missing required argument.
pub fn parse(line: &str, current: &str) -> (r: Result<Operation, ParseError>)
    ensures
        parse_result_view(r) == spec_parse(line@, current@),
{
    if first_char_is(line, '@') {
        let n = line.unicode_len();
        let rest = line.substring_char(1, n);
        assert(rest@ =~= line@.skip(1));
        let toks = split_line(rest);
        let target = toks[0].clone();
        let body = join_from(&toks, 1);
        proof {
            assert(token_views(toks@)[0] == toks@[0]@);
            assert(token_views(toks@).skip(1) =~= split_spaces(line@.skip(1)).skip(1));
        }
        Ok(Operation::Privmsg { target, body })
    } else if first_char_is(line, '/') {
        let toks = split_line(line);
        let ghost ts = split_spaces(line@);
        proof {
            assert(token_views(toks@) == ts);
            assert(token_views(toks@)[0] == toks@[0]@);
        }
        let consumed = toks.len() > 1 && first_char_is(toks[1].as_str(), '#');
        proof {
            if toks.len() > 1 {
                assert(token_views(toks@)[1] == toks@[1]@);
            }
            assert(consumed == channel_token_consumed(ts));
        }
        let chan: Option<String> = if consumed && channel_name_accepted(toks[1].as_str()) {
            Some(toks[1].clone())
        } else {
            None
        };
        let args_start: usize = if consumed {
            2
        } else {
            1
        };
        proof {
            assert(directive_args(ts) =~= token_views(toks@).skip(args_start as int));
            if args_start < toks@.len() {
                assert(token_views(toks@)[args_start as int] == toks@[args_start as int]@);
                assert(directive_args(ts).skip(1) =~= token_views(toks@).skip(args_start + 1));
            }
        }
        if str_eq(toks[0].as_str(), "/PRIVMESSAGE") {
            match chan {
                Some(c) => Ok(
                    Operation::Privmsg { target: c, body: join_from(&toks, args_start) },
                ),
                None => {
                    if toks.len() > args_start {
                        Ok(
                            Operation::Privmsg {
                                target: toks[args_start].clone(),
                                body: join_from(&toks, args_start + 1),
                            },
                        )
                    } else {
                        Err(ParseError::MissingArgument)
                    }
                },
            }
        } else if str_eq(toks[0].as_str(), "/JOIN") {
            match chan {
                Some(c) => Ok(Operation::Join { channel: c }),
                None => {
                    if toks.len() > args_start {
                        Ok(Operation::Join { channel: join_from(&toks, args_start) })
                    } else {
                        Ok(Operation::Join { channel: String::from_str(current) })
                    }
                },
            }
        } else if str_eq(toks[0].as_str(), "/PART") {
            match chan {
                Some(c) => Ok(Operation::Part { channel: c }),
                None => {
                    if toks.len() > args_start {
                        Ok(Operation::Part { channel: join_from(&toks, args_start) })
                    } else {
                        Ok(Operation::Part { channel: String::from_str(current) })
                    }
                },
            }
        } else if str_eq(toks[0].as_str(), "/INVITE") {
            if toks.len() > args_start {
                let channel = match chan {
                    Some(c) => c,
                    None => String::from_str(current),
                };
                Ok(Operation::Invite { channel, name: join_from(&toks, args_start) })
            } else {
                Err(ParseError::MissingArgument)
            }
        } else if str_eq(toks[0].as_str(), "/TOPIC") {
            if toks.len() > args_start {
                let channel = match chan {
                    Some(c) => c,
                    None => String::from_str(current),
                };
                Ok(Operation::Topic { channel, text: join_from(&toks, args_start) })
            } else {
                Err(ParseError::MissingArgument)
            }
        } else if str_eq(toks[0].as_str(), "/Quit") {
            Ok(Operation::Quit { message: join_from(&toks, args_start) })
        } else {
            Err(ParseError::UnknownCommand)
        }
    } else {
        Ok(
            Operation::Privmsg {
                target: String::from_str(current),
                body: String::from_str(line),
            },
        )
    }
}

} // verus!

