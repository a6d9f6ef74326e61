//! The session manager's decisions: the connection lifecycle state machine,
//! the guard that allows sends only against a live identified session, and
//! the classification of inbound protocol frames into events.
//!
//! The blocking work — connecting, identifying, reading the stream — happens
//! outside this crate; what is here is every decision taken over its plain
//! outcomes.

use crate::Event;
use crate::EventView;
use crate::parse::join_spaces;
use crate::parse::split_spaces;
use vstd::prelude::*;

verus! {

// ------------------------------------------------------------------
// The connection lifecycle.
// ------------------------------------------------------------------

/// The lifecycle of the one shared session handle.
#[derive(Debug, Clone, Copy, PartialEq, Eq, Structural)]
pub enum ConnState {
    /// No connection exists yet.
    Unconnected,
    /// A connect attempt is running on its own execution context.
    Connecting,
    /// The session is live and identified; sends are allowed.
    Identified,
    /// The transport ended or a quit was issued; sends must fail.
    Closed,
}

/// What can happen to the connection.
#[derive(Debug, Clone, Copy, PartialEq, Eq, Structural)]
pub enum ConnEvent {
    /// The user submitted credentials; a connect attempt starts.
    CredentialsSubmitted,
    /// The connect attempt produced a live, identified session.
    ConnectSucceeded,
    /// The connect attempt failed; a fresh attempt may follow.
    ConnectFailed,
    /// The transport ended the incoming stream.
    StreamEnded,
    /// A quit operation was issued.
    QuitIssued,
}

/// The lifecycle transitions: credentials start a connect attempt, whose
/// success identifies the session and whose failure returns to the start; a
/// live session closes when the stream ends or a quit is issued. Any other
/// happening leaves the state alone.
pub open spec fn spec_conn_step(s: ConnState, e: ConnEvent) -> ConnState {
    match (s, e) {
        (ConnState::Unconnected, ConnEvent::CredentialsSubmitted) => ConnState::Connecting,
        (ConnState::Connecting, ConnEvent::ConnectSucceeded) => ConnState::Identified,
        (ConnState::Connecting, ConnEvent::ConnectFailed) => ConnState::Unconnected,
        (ConnState::Identified, ConnEvent::StreamEnded) => ConnState::Closed,
        (ConnState::Identified, ConnEvent::QuitIssued) => ConnState::Closed,
        _ => s,
    }
}

/// Advances the lifecycle by one happening.
pub fn conn_step(s: ConnState, e: ConnEvent) -> (t: ConnState)
    ensures
        t == spec_conn_step(s, e),
{
    match (s, e) {
        (ConnState::Unconnected, ConnEvent::CredentialsSubmitted) => ConnState::Connecting,
        (ConnState::Connecting, ConnEvent::ConnectSucceeded) => ConnState::Identified,
        (ConnState::Connecting, ConnEvent::ConnectFailed) => ConnState::Unconnected,
        (ConnState::Identified, ConnEvent::StreamEnded) => ConnState::Closed,
        (ConnState::Identified, ConnEvent::QuitIssued) => ConnState::Closed,
        (s, _) => s,
    }
}

/// The error of a send attempted against the session: there is no live
/// identified session to send on.
#[derive(Debug, Clone, Copy, PartialEq, Eq, Structural)]
pub enum SendError {
    /// The session is not in the identified state.
    NotConnected,
}

/// Whether the state admits sends: exactly the identified state.
pub fn can_send(s: ConnState) -> (r: bool)
    ensures
        r == (s == ConnState::Identified),
{
    match s {
        ConnState::Identified => true,
        _ => false,
    }
}

/// The send guard: allows a send exactly in the identified state, and
/// otherwise fails with the no-active-session error instead of panicking.
pub fn ready_to_send(s: ConnState) -> (r: Result<(), SendError>)
    ensures
        r == Ok::<(), SendError>(()) <==> s == ConnState::Identified,
        s != ConnState::Identified ==> r == Err::<(), SendError>(SendError::NotConnected),
{
    match s {
        ConnState::Identified => Ok(()),
        _ => Err(SendError::NotConnected),
    }
}

/// Once closed, the lifecycle stays closed: no happening reopens a session.
pub proof fn lemma_closed_is_final(e: ConnEvent)
    ensures
        spec_conn_step(ConnState::Closed, e) == ConnState::Closed,
{
}

// ------------------------------------------------------------------
// Classifying inbound frames.
// ------------------------------------------------------------------

/// What the classifier reads of an inbound protocol frame's command.
#[derive(Debug, Clone, PartialEq, Eq)]
pub enum FrameCommand {
    /// A numeric server response or reply.
    Response,
    /// A direct chat message: its declared target and its body.
    Privmsg { target: String, body: String },
    /// Anything else.
    Other,
}

/// What the classifier reads of an inbound protocol frame: the command, the
/// sender's nickname from the frame's source identity when present, the
/// frame's likely response target when present, and the frame rendered as a
/// single line.
#[derive(Debug, Clone, PartialEq, Eq)]
pub struct Frame {
    pub command: FrameCommand,
    pub source_nick: Option<String>,
    pub response_target: Option<String>,
    pub rendered: String,
}

/// The mathematical value of a [`FrameCommand`].
pub enum FrameCommandView {
    Response,
    Privmsg { target: Seq<char>, body: Seq<char> },
    Other,
}

/// The mathematical value of a [`Frame`].
pub struct FrameView {
    pub command: FrameCommandView,
    pub source_nick: Option<Seq<char>>,
    pub response_target: Option<Seq<char>>,
    pub rendered: Seq<char>,
}

impl View for FrameCommand {
    type V = FrameCommandView;

    open spec fn view(&self) -> FrameCommandView {
        match self {
            FrameCommand::Response => FrameCommandView::Response,
            FrameCommand::Privmsg { target, body } => FrameCommandView::Privmsg {
                target: target@,
                body: body@,
            },
            FrameCommand::Other => FrameCommandView::Other,
        }
    }
}

impl View for Frame {
    type V = FrameView;

    open spec fn view(&self) -> FrameView {
        FrameView {
            command: self.command@,
            source_nick: match &self.source_nick {
                Some(n) => Some(n@),
                None => None,
            },
            response_target: match &self.response_target {
                Some(t) => Some(t@),
                None => None,
            },
            rendered: self.rendered@,
        }
    }
}

/// `s` without its leading `:` sigils.
pub open spec fn strip_colons(s: Seq<char>) -> Seq<char>
    decreases s.len(),
{
    if s.len() > 0 && s[0] == ':' {
        strip_colons(s.skip(1))
    } else {
        s
    }
}

/// The event that one inbound frame becomes. A numeric response is split on
/// its first space: the leading token, a pseudo-sender, and the remainder,
/// the body, each without leading `:` sigils. A direct chat message keeps
/// its body, with the sender resolved from the source identity when present
/// and from the declared target otherwise. Anything else carries the whole
/// rendered frame, attributed to the response target or to the unknown
/// sender sentinel. Every frame becomes exactly one event; none is dropped.
pub open spec fn spec_classify(f: FrameView) -> EventView {
    match f.command {
        FrameCommandView::Response => {
            let ts = split_spaces(f.rendered);
            EventView::IrcMessage(strip_colons(ts[0]), strip_colons(join_spaces(ts.skip(1))))
        },
        FrameCommandView::Privmsg { target, body } => match f.source_nick {
            Some(n) => EventView::IrcMessage(n, body),
            None => EventView::IrcMessage(target, body),
        },
        FrameCommandView::Other => match f.response_target {
            Some(t) => EventView::IrcMessage(t, f.rendered),
            None => EventView::IrcMessage("unk"@, f.rendered),
        },
    }
}

/// Strips leading `:` sigils from a string.
fn strip_leading_colons(s: &str) -> (r: String)
    ensures
        r@ == strip_colons(s@),
{
    let n = s.unicode_len();
    let mut i: usize = 0;
    proof {
        assert(s@.skip(0) =~= s@);
    }
    while i < n && s.get_char(i) == ':'
        invariant
            n == s@.len(),
            0 <= i <= n,
            strip_colons(s@) == strip_colons(s@.skip(i as int)),
        decreases n - i,
    {
        proof {
            assert(s@.skip(i as int)[0] == s@[i as int]);
            assert(s@.skip(i as int).skip(1) =~= s@.skip(i + 1));
        }
        i += 1;
    }
    let r = String::from_str(s.substring_char(i, n));
    proof {
        assert(s@.subrange(i as int, n as int) =~= s@.skip(i as int));
        if i < n {
            assert(strip_colons(s@.skip(i as int)) == s@.skip(i as int));
        } else {
            assert(s@.skip(i as int).len() == 0);
        }
    }
    r
}

/// Turns one inbound frame into the event the dispatcher will see.
pub fn classify(f: Frame) -> (e: Event)
    ensures
        e@ == spec_classify(f@),
{
    let ghost fv = f@;
    match f.command {
        FrameCommand::Response => {
            let toks = crate::parse::split_line(f.rendered.as_str());
            let sender = strip_leading_colons(toks[0].as_str());
            let rest = crate::parse::join_from(&toks, 1);
            let body = strip_leading_colons(rest.as_str());
            proof {
                assert(crate::parse::token_views(toks@)[0] == toks@[0]@);
                assert(crate::parse::token_views(toks@).skip(1) =~= split_spaces(
                    fv.rendered,
                ).skip(1));
            }
            Event::IrcMessage(sender, body)
        },
        FrameCommand::Privmsg { target, body } => match f.source_nick {
            Some(n) => Event::IrcMessage(n, body),
            None => Event::IrcMessage(target, body),
        },
        FrameCommand::Other => match f.response_target {
            Some(t) => Event::IrcMessage(t, f.rendered),
            None => Event::IrcMessage(String::from_str("unk"), f.rendered),
        },
    }
}

} // verus!
