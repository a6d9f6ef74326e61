//! The decisions of the presentation surface: validating the login form and
//! classifying a typed line as a quit request or a chat message. The
//! widgets, rendering and input handling live outside this crate.

use crate::Event;
use crate::EventView;
use vstd::prelude::*;

verus! {

/// The error of [`check_credentials`]: the channel name is not acceptable.
#[derive(Debug, Clone, Copy, PartialEq, Eq, Structural)]
pub enum TuiError {
    /// The channel name does not begin with `#`.
    ChannelError,
}

/// Whether the login form's channel field is acceptable: it must begin
/// with `#`.
pub open spec fn spec_credentials_ok(irc_channel: Seq<char>) -> bool {
    irc_channel.len() > 0 && irc_channel[0] == '#'
}

/// Validates the submitted login form. Succeeds, carrying the credentials
/// event to put on the bus, exactly when the channel name begins with `#`;
/// fails with [`TuiError::ChannelError`] otherwise.
pub fn check_credentials(server: &str, name: &str, irc_channel: &str) -> (r: Result<
    Event,
    TuiError,
>)
    ensures
        spec_credentials_ok(irc_channel@) ==> (r matches Ok(e) && e@
            == EventView::TuiCredentials(name@, irc_channel@, server@)),
        !spec_credentials_ok(irc_channel@) ==> r == Err::<Event, TuiError>(
            TuiError::ChannelError,
        ),
{
    let n = irc_channel.unicode_len();
    if n == 0 || irc_channel.get_char(0) != '#' {
        return Err(TuiError::ChannelError);
    }
    Ok(
        Event::TuiCredentials(
            String::from_str(name),
            String::from_str(irc_channel),
            String::from_str(server),
        ),
    )
}

/// Whether a token is the word `quit` in any mix of ASCII case.
pub open spec fn spec_is_quit_word(s: Seq<char>) -> bool {
    s.len() == 4 && (s[0] == 'Q' || s[0] == 'q') && (s[1] == 'U' || s[1] == 'u') && (s[2] == 'I'
        || s[2] == 'i') && (s[3] == 'T' || s[3] == 't')
}

/// The event a typed line becomes: a line that is the single word `quit`,
/// in any ASCII case, is a quit request; anything else is a chat message
/// carrying the line unchanged.
pub open spec fn spec_input_event(name: Seq<char>, line: Seq<char>) -> EventView {
    let ts = crate::parse::split_spaces(line);
    if ts.len() == 1 && spec_is_quit_word(ts[0]) {
        EventView::TuiQuit
    } else {
        EventView::TuiMessage(name, line)
    }
}

fn is_quit_word(s: &str) -> (r: bool)
    ensures
        r == spec_is_quit_word(s@),
{
    let n = s.unicode_len();
    if n != 4 {
        return false;
    }
    let c0 = s.get_char(0);
    let c1 = s.get_char(1);
    let c2 = s.get_char(2);
    let c3 = s.get_char(3);
    (c0 == 'Q' || c0 == 'q') && (c1 == 'U' || c1 == 'u') && (c2 == 'I' || c2 == 'i') && (c3 == 'T'
        || c3 == 't')
}

/// Classifies one line typed into the chat input as the event to put on
/// the bus.
pub fn input_event(name: &str, line: &str) -> (e: Event)
    ensures
        e@ == spec_input_event(name@, line@),
{
    let toks = crate::parse::split_line(line);
    proof {
        assert(crate::parse::token_views(toks@)[0] == toks@[0]@);
    }
    if toks.len() == 1 && is_quit_word(toks[0].as_str()) {
        Event::TuiQuit
    } else {
        Event::TuiMessage(String::from_str(name), String::from_str(line))
    }
}

} // verus!
