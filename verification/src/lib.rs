//! Core of an IRC chat client: the event vocabulary shared by the user
//! interface and the network session, a verified command parser, the
//! classification of inbound protocol frames, the dispatcher that owns the
//! transcript, the connection lifecycle state machine, and the rendezvous
//! channel used for all cross-thread communication.
//!
//! Everything that touches the terminal or the network lives outside this
//! crate; the functions here are pure decisions over plain values.

use vstd::prelude::*;

pub mod channel;
pub mod credentials;
pub mod dispatch;
pub mod parse;
pub mod session;

verus! {

/// A message crossing the boundary between the user interface and the
/// network session. `Tui*` variants are emitted by the interface, `Irc*`
/// variants by the session's receive loop.
#[derive(Debug, Clone, PartialEq, Eq)]
pub enum Event {
    /// The user typed a line: sender name and raw text.
    TuiMessage(String, String),
    /// The user submitted the login form: nickname, channel, server.
    TuiCredentials(String, String, String),
    /// The user asked to shut down.
    TuiQuit,
    /// A categorized server notice (message of the day).
    IrcMotd(String),
    /// The server's welcome banner arrived.
    IrcWelcome,
    /// An inbound chat message: resolved sender name and text.
    IrcMessage(String, String),
}

/// The mathematical value of an [`Event`]: the same tags over character
/// sequences.
pub enum EventView {
    TuiMessage(Seq<char>, Seq<char>),
    TuiCredentials(Seq<char>, Seq<char>, Seq<char>),
    TuiQuit,
    IrcMotd(Seq<char>),
    IrcWelcome,
    IrcMessage(Seq<char>, Seq<char>),
}

impl View for Event {
    type V = EventView;

    open spec fn view(&self) -> EventView {
        match self {
            Event::TuiMessage(name, text) => EventView::TuiMessage(name@, text@),
            Event::TuiCredentials(name, chan, server) => EventView::TuiCredentials(
                name@,
                chan@,
                server@,
            ),
            Event::TuiQuit => EventView::TuiQuit,
            Event::IrcMotd(text) => EventView::IrcMotd(text@),
            Event::IrcWelcome => EventView::IrcWelcome,
            Event::IrcMessage(name, text) => EventView::IrcMessage(name@, text@),
        }
    }
}

} // verus!
