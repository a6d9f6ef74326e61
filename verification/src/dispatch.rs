//! The event bus dispatcher: the single loop body that owns the canonical
//! application state — the transcript and the currently bound channel — and
//! decides, for each event, how the state changes and what the surrounding
//! loop must do next.
//!
//! The loop itself runs outside this crate: it receives one event, calls
//! [`Dispatcher::dispatch`], performs the returned action, and repeats until
//! an action asks it to exit.

use crate::Event;
use crate::EventView;
use crate::parse::Operation;
use crate::parse::OperationView;
use crate::parse::ParseError;
use crate::parse::parse;
use crate::parse::spec_parse;
use vstd::prelude::*;

verus! {

/// What the surrounding loop must do after one event is dispatched.
#[derive(Debug, Clone, PartialEq, Eq)]
pub enum Action {
    /// Nothing: wait for the next event.
    Stay,
    /// Hand the operation to the session manager's send, then wait on.
    Send(Operation),
    /// Hand the operation to the session manager's send (best effort), then
    /// exit the loop.
    SendAndExit(Operation),
    /// Spawn a connect attempt with these credentials on a fresh execution
    /// context.
    Connect { nick: String, channel: String, server: String },
    /// Exit the loop without sending anything.
    Exit,
}

/// The mathematical value of an [`Action`].
pub enum ActionView {
    Stay,
    Send(OperationView),
    SendAndExit(OperationView),
    Connect { nick: Seq<char>, channel: Seq<char>, server: Seq<char> },
    Exit,
}

impl View for Action {
    type V = ActionView;

    open spec fn view(&self) -> ActionView {
        match self {
            Action::Stay => ActionView::Stay,
            Action::Send(op) => ActionView::Send(op@),
            Action::SendAndExit(op) => ActionView::SendAndExit(op@),
            Action::Connect { nick, channel, server } => ActionView::Connect {
                nick: nick@,
                channel: channel@,
                server: server@,
            },
            Action::Exit => ActionView::Exit,
        }
    }
}

/// The dispatcher's state: the append-only transcript, one line per entry,
/// and the channel bound by the most recent credentials.
pub struct Dispatcher {
    pub transcript: Vec<String>,
    pub channel: String,
}

/// The mathematical value of a [`Dispatcher`].
pub struct DispatcherView {
    pub transcript: Seq<Seq<char>>,
    pub channel: Seq<char>,
}

impl View for Dispatcher {
    type V = DispatcherView;

    open spec fn view(&self) -> DispatcherView {
        DispatcherView {
            transcript: self.transcript@.map_values(|l: String| l@),
            channel: self.channel@,
        }
    }
}

/// A transcript line for a chat message: `name: text`.
pub open spec fn chat_line(name: Seq<char>, text: Seq<char>) -> Seq<char> {
    name + ": "@ + text
}

/// The audit line for submitted credentials: `name: channel, server`.
pub open spec fn credentials_line(name: Seq<char>, channel: Seq<char>, server: Seq<char>) -> Seq<
    char,
> {
    name + ": "@ + channel + ", "@ + server
}

/// The inline transcript notice for a rejected line.
pub open spec fn parse_error_notice(e: ParseError) -> Seq<char> {
    match e {
        ParseError::UnknownCommand => "error: unknown command"@,
        ParseError::MissingArgument => "error: missing argument"@,
    }
}

/// `s` with one line appended to the transcript.
pub open spec fn with_line(s: DispatcherView, line: Seq<char>) -> DispatcherView {
    DispatcherView { transcript: s.transcript.push(line), channel: s.channel }
}

/// The dispatcher's decision for one event: the new state and the action
/// the loop must take.
///
/// A user-typed line is echoed to the transcript, parsed against the bound
/// channel, and sent; a quit operation is sent and ends the loop; a
/// rejected line leaves an inline notice and nothing is sent. Credentials
/// are audited, bind the channel, and start a connect attempt. A quit
/// request sends a bare quit and ends the loop. An inbound chat message is
/// appended to the transcript. Any other event ends the loop.
pub open spec fn spec_dispatch(s: DispatcherView, e: EventView) -> (DispatcherView, ActionView) {
    match e {
        EventView::IrcMessage(name, text) => (with_line(s, chat_line(name, text)), ActionView::Stay),
        EventView::TuiMessage(name, text) => {
            let echoed = with_line(s, chat_line(name, text));
            match spec_parse(text, s.channel) {
                Ok(op) => if op is Quit {
                    (echoed, ActionView::SendAndExit(op))
                } else {
                    (echoed, ActionView::Send(op))
                },
                Err(pe) => (with_line(echoed, parse_error_notice(pe)), ActionView::Stay),
            }
        },
        EventView::TuiCredentials(name, channel, server) => (
            DispatcherView {
                transcript: s.transcript.push(credentials_line(name, channel, server)),
                channel: channel,
            },
            ActionView::Connect { nick: name, channel: channel, server: server },
        ),
        EventView::TuiQuit => (
            with_line(s, "Quitting"@),
            ActionView::SendAndExit(OperationView::Quit { message: Seq::<char>::empty() }),
        ),
        EventView::IrcMotd(text) => (s, ActionView::Exit),
        EventView::IrcWelcome => (s, ActionView::Exit),
    }
}

/// The transcript is append-only: dispatching never removes or reorders
/// what is already there.
pub proof fn lemma_transcript_append_only(s: DispatcherView, e: EventView)
    ensures
        s.transcript.is_prefix_of(spec_dispatch(s, e).0.transcript),
{
    let t = s.transcript;
    assert forall|line: Seq<char>| t.is_prefix_of(#[trigger] t.push(line)) by {
        assert(t =~= t.push(line).subrange(0, t.len() as int));
    }
    assert forall|l1: Seq<char>, l2: Seq<char>|
        t.is_prefix_of(#[trigger] t.push(l1).push(l2)) by {
        assert(t =~= t.push(l1).push(l2).subrange(0, t.len() as int));
    }
    assert(t.is_prefix_of(t)) by {
        assert(t =~= t.subrange(0, t.len() as int));
    }
}

fn chat_line_exec(name: &str, text: &str) -> (r: String)
    ensures
        r@ == chat_line(name@, text@),
{
    let mut out = String::from_str(name);
    out.append(": ");
    out.append(text);
    out
}

fn credentials_line_exec(name: &str, channel: &str, server: &str) -> (r: String)
    ensures
        r@ == credentials_line(name@, channel@, server@),
{
    let mut out = String::from_str(name);
    out.append(": ");
    out.append(channel);
    out.append(", ");
    out.append(server);
    out
}

fn parse_error_notice_exec(e: ParseError) -> (r: String)
    ensures
        r@ == parse_error_notice(e),
{
    match e {
        ParseError::UnknownCommand => String::from_str("error: unknown command"),
        ParseError::MissingArgument => String::from_str("error: missing argument"),
    }
}

impl Dispatcher {
    /// A fresh dispatcher: empty transcript, no channel bound yet.
    pub fn new() -> (d: Dispatcher)
        ensures
            d@.transcript == Seq::<Seq<char>>::empty(),
            d@.channel == Seq::<char>::empty(),
    {
        let d = Dispatcher { transcript: Vec::new(), channel: String::new() };
        proof {
            assert(d@.transcript =~= Seq::<Seq<char>>::empty());
        }
        d
    }

    /// Handles one event: updates the transcript and the bound channel as
    /// [`spec_dispatch`] says, and returns the action the loop must take.
    pub fn dispatch(&mut self, e: Event) -> (a: Action)
        ensures
            final(self)@ == spec_dispatch(old(self)@, e@).0,
            a@ == spec_dispatch(old(self)@, e@).1,
            old(self)@.transcript.is_prefix_of(final(self)@.transcript),
    {
        proof {
            lemma_transcript_append_only(old(self)@, e@);
        }
        let ghost s0 = self@;
        match e {
            Event::IrcMessage(name, text) => {
                let line = chat_line_exec(name.as_str(), text.as_str());
                proof {
                    assert(self@.transcript.push(line@) =~= self.transcript@.push(
                        line,
                    ).map_values(|l: String| l@));
                }
                self.transcript.push(line);
                Action::Stay
            },
            Event::TuiMessage(name, text) => {
                let line = chat_line_exec(name.as_str(), text.as_str());
                proof {
                    assert(self@.transcript.push(line@) =~= self.transcript@.push(
                        line,
                    ).map_values(|l: String| l@));
                }
                self.transcript.push(line);
                match parse(text.as_str(), self.channel.as_str()) {
                    Ok(op) => {
                        let quit = match &op {
                            Operation::Quit { message } => true,
                            _ => false,
                        };
                        if quit {
                            Action::SendAndExit(op)
                        } else {
                            Action::Send(op)
                        }
                    },
                    Err(pe) => {
                        let notice = parse_error_notice_exec(pe);
                        proof {
                            assert(self@.transcript.push(notice@) =~= self.transcript@.push(
                                notice,
                            ).map_values(|l: String| l@));
                        }
                        self.transcript.push(notice);
                        Action::Stay
                    },
                }
            },
            Event::TuiCredentials(name, channel, server) => {
                let line = credentials_line_exec(
                    name.as_str(),
                    channel.as_str(),
                    server.as_str(),
                );
                proof {
                    assert(self@.transcript.push(line@) =~= self.transcript@.push(
                        line,
                    ).map_values(|l: String| l@));
                }
                self.transcript.push(line);
                self.channel = channel.clone();
                Action::Connect { nick: name, channel, server }
            },
            Event::TuiQuit => {
                let line = String::from_str("Quitting");
                proof {
                    assert(self@.transcript.push(line@) =~= self.transcript@.push(
                        line,
                    ).map_values(|l: String| l@));
                }
                self.transcript.push(line);
                Action::SendAndExit(Operation::Quit { message: String::new() })
            },
            Event::IrcMotd(text) => Action::Exit,
            Event::IrcWelcome => Action::Exit,
        }
    }
}

} // verus!
