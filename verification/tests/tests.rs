use irc_chat::Event;
use irc_chat::channel::Channel;
use irc_chat::credentials::TuiError;
use irc_chat::credentials::check_credentials;
use irc_chat::credentials::input_event;
use irc_chat::dispatch::Action;
use irc_chat::dispatch::Dispatcher;
use irc_chat::parse::Operation;
use irc_chat::parse::ParseError;
use irc_chat::parse::parse;
use irc_chat::session::ConnEvent;
use irc_chat::session::ConnState;
use irc_chat::session::Frame;
use irc_chat::session::FrameCommand;
use irc_chat::session::SendError;
use irc_chat::session::can_send;
use irc_chat::session::classify;
use irc_chat::session::conn_step;
use irc_chat::session::ready_to_send;

fn s(x: &str) -> String {
    x.to_string()
}

// ---------------- parser ----------------

#[test]
fn test_join_binds_channel() {
    assert_eq!(parse("/JOIN #foo", ""), Ok(Operation::Join { channel: s("#foo") }));
}

#[test]
fn test_part_defaults_to_bound_channel() {
    assert_eq!(parse("/PART", "#foo"), Ok(Operation::Part { channel: s("#foo") }));
}

#[test]
fn test_implicit_privmessage() {
    assert_eq!(
        parse("hello there", "#foo"),
        Ok(Operation::Privmsg { target: s("#foo"), body: s("hello there") })
    );
}

#[test]
fn test_at_name_privmessage() {
    assert_eq!(
        parse("@bob hi", "#foo"),
        Ok(Operation::Privmsg { target: s("bob"), body: s("hi") })
    );
}

#[test]
fn test_invite_missing_argument() {
    assert_eq!(parse("/INVITE", "#foo"), Err(ParseError::MissingArgument));
}

#[test]
fn test_unknown_command() {
    assert_eq!(parse("/BOGUS x", "#foo"), Err(ParseError::UnknownCommand));
}

#[test]
fn test_directives_are_case_sensitive() {
    assert_eq!(parse("/join #foo", ""), Err(ParseError::UnknownCommand));
    assert_eq!(parse("/QUIT", ""), Err(ParseError::UnknownCommand));
}

#[test]
fn test_privmessage_channel_bound() {
    assert_eq!(
        parse("/PRIVMESSAGE #room hi there", ""),
        Ok(Operation::Privmsg { target: s("#room"), body: s("hi there") })
    );
}

#[test]
fn test_privmessage_explicit_target() {
    assert_eq!(
        parse("/PRIVMESSAGE bob hi", "#c"),
        Ok(Operation::Privmsg { target: s("bob"), body: s("hi") })
    );
}

#[test]
fn test_privmessage_missing_target() {
    assert_eq!(parse("/PRIVMESSAGE", "#c"), Err(ParseError::MissingArgument));
}

#[test]
fn test_topic_channel_and_text() {
    assert_eq!(
        parse("/TOPIC #room the new topic", ""),
        Ok(Operation::Topic { channel: s("#room"), text: s("the new topic") })
    );
}

#[test]
fn test_topic_missing_text() {
    assert_eq!(parse("/TOPIC #room", ""), Err(ParseError::MissingArgument));
}

#[test]
fn test_invite_with_channel_and_name() {
    assert_eq!(
        parse("/INVITE #room bob", ""),
        Ok(Operation::Invite { channel: s("#room"), name: s("bob") })
    );
}

#[test]
fn test_invite_defaults_to_bound_channel() {
    assert_eq!(
        parse("/INVITE bob", "#foo"),
        Ok(Operation::Invite { channel: s("#foo"), name: s("bob") })
    );
}

#[test]
fn test_join_explicit_names_rejoined() {
    assert_eq!(parse("/JOIN one two", "#c"), Ok(Operation::Join { channel: s("one two") }));
}

#[test]
fn test_quit_plain_and_with_message() {
    assert_eq!(parse("/Quit", "#c"), Ok(Operation::Quit { message: s("") }));
    assert_eq!(parse("/Quit bye now", "#c"), Ok(Operation::Quit { message: s("bye now") }));
}

#[test]
fn test_implicit_preserves_spacing() {
    assert_eq!(
        parse("a  b", "#c"),
        Ok(Operation::Privmsg { target: s("#c"), body: s("a  b") })
    );
}

#[test]
fn test_at_name_extra_space_kept_in_body() {
    assert_eq!(
        parse("@bob  hi", "#c"),
        Ok(Operation::Privmsg { target: s("bob"), body: s(" hi") })
    );
}

#[test]
fn test_empty_line_is_implicit_privmessage() {
    assert_eq!(parse("", "#c"), Ok(Operation::Privmsg { target: s("#c"), body: s("") }));
}

// ---------------- rendezvous channel ----------------

#[test]
fn test_unbounded_delivers_in_send_order() {
    let (a, b) = Channel::<u64>::pair_unbounded();
    for v in 0..5u64 {
        a.send(v).unwrap();
    }
    for v in 0..5u64 {
        assert_eq!(b.receive().unwrap(), v);
    }
    // and the other direction of the same pair
    for v in 10..15u64 {
        b.send(v).unwrap();
    }
    for v in 10..15u64 {
        assert_eq!(a.receive().unwrap(), v);
    }
}

#[test]
fn test_rendezvous_delivers_in_send_order() {
    let rt = tokio::runtime::Builder::new_multi_thread().build().unwrap();
    let (a, b) = Channel::<u64>::pair();
    let sender = rt.spawn_blocking(move || {
        for v in 0..5u64 {
            a.send(v).unwrap();
        }
    });
    for v in 0..5u64 {
        assert_eq!(b.receive().unwrap(), v);
    }
    rt.block_on(sender).unwrap();
}

#[test]
fn test_send_fails_after_peer_dropped() {
    let (a, b) = Channel::<u64>::pair();
    drop(b);
    let err = a.send(7).unwrap_err();
    assert_eq!(err.0, 7);

    let (c, d) = Channel::<u64>::pair_unbounded();
    drop(d);
    let err = c.send(9).unwrap_err();
    assert_eq!(err.0, 9);
}

#[test]
fn test_receive_fails_after_peer_dropped() {
    let (a, b) = Channel::<u64>::pair_unbounded();
    drop(b);
    assert!(a.receive().is_err());
}

#[test]
fn test_queued_values_survive_peer_drop() {
    let (a, b) = Channel::<u64>::pair_unbounded();
    a.send(1).unwrap();
    a.send(2).unwrap();
    drop(a);
    assert_eq!(b.receive().unwrap(), 1);
    assert_eq!(b.receive().unwrap(), 2);
    assert!(b.receive().is_err());
}

// ---------------- frame classification ----------------

#[test]
fn test_classify_response_splits_pseudo_sender() {
    let f = Frame {
        command: FrameCommand::Response,
        source_nick: None,
        response_target: None,
        rendered: s(":server 372 nick :- hello"),
    };
    assert_eq!(classify(f), Event::IrcMessage(s("server"), s("372 nick :- hello")));
}

#[test]
fn test_classify_privmsg_uses_source_nick() {
    let f = Frame {
        command: FrameCommand::Privmsg { target: s("#chan"), body: s("hi") },
        source_nick: Some(s("alice")),
        response_target: None,
        rendered: s(":alice!u@h PRIVMSG #chan :hi"),
    };
    assert_eq!(classify(f), Event::IrcMessage(s("alice"), s("hi")));
}

#[test]
fn test_classify_privmsg_falls_back_to_target() {
    let f = Frame {
        command: FrameCommand::Privmsg { target: s("#chan"), body: s("hi") },
        source_nick: None,
        response_target: None,
        rendered: s("PRIVMSG #chan :hi"),
    };
    assert_eq!(classify(f), Event::IrcMessage(s("#chan"), s("hi")));
}

#[test]
fn test_classify_other_uses_response_target() {
    let f = Frame {
        command: FrameCommand::Other,
        source_nick: None,
        response_target: Some(s("bob")),
        rendered: s("PING xyz"),
    };
    assert_eq!(classify(f), Event::IrcMessage(s("bob"), s("PING xyz")));
}

#[test]
fn test_classify_other_unknown_sender_sentinel() {
    let f = Frame {
        command: FrameCommand::Other,
        source_nick: None,
        response_target: None,
        rendered: s("ERROR :closing"),
    };
    assert_eq!(classify(f), Event::IrcMessage(s("unk"), s("ERROR :closing")));
}

// ---------------- dispatcher ----------------

#[test]
fn test_dispatch_inbound_message_appends() {
    let mut d = Dispatcher::new();
    let a = d.dispatch(Event::IrcMessage(s("alice"), s("hi")));
    assert_eq!(a, Action::Stay);
    assert_eq!(d.transcript, vec![s("alice: hi")]);
}

#[test]
fn test_dispatch_typed_line_echoes_and_sends() {
    let mut d = Dispatcher { transcript: Vec::new(), channel: s("#c") };
    let a = d.dispatch(Event::TuiMessage(s("me"), s("hello")));
    assert_eq!(a, Action::Send(Operation::Privmsg { target: s("#c"), body: s("hello") }));
    assert_eq!(d.transcript, vec![s("me: hello")]);
}

#[test]
fn test_dispatch_quit_line_sends_and_exits() {
    let mut d = Dispatcher { transcript: Vec::new(), channel: s("#c") };
    let a = d.dispatch(Event::TuiMessage(s("me"), s("/Quit")));
    assert_eq!(a, Action::SendAndExit(Operation::Quit { message: s("") }));
}

#[test]
fn test_dispatch_parse_error_leaves_notice() {
    let mut d = Dispatcher { transcript: Vec::new(), channel: s("#c") };
    let a = d.dispatch(Event::TuiMessage(s("me"), s("/BOGUS")));
    assert_eq!(a, Action::Stay);
    assert_eq!(d.transcript, vec![s("me: /BOGUS"), s("error: unknown command")]);
}

#[test]
fn test_dispatch_missing_argument_notice() {
    let mut d = Dispatcher { transcript: Vec::new(), channel: s("#c") };
    let a = d.dispatch(Event::TuiMessage(s("me"), s("/INVITE")));
    assert_eq!(a, Action::Stay);
    assert_eq!(d.transcript, vec![s("me: /INVITE"), s("error: missing argument")]);
}

#[test]
fn test_dispatch_credentials_binds_channel_and_connects() {
    let mut d = Dispatcher::new();
    let a = d.dispatch(Event::TuiCredentials(s("me"), s("#c"), s("irc.example.com")));
    assert_eq!(
        a,
        Action::Connect { nick: s("me"), channel: s("#c"), server: s("irc.example.com") }
    );
    assert_eq!(d.channel, s("#c"));
    assert_eq!(d.transcript, vec![s("me: #c, irc.example.com")]);

    // the bound channel now carries implicit private messages
    let a = d.dispatch(Event::TuiMessage(s("me"), s("hi all")));
    assert_eq!(a, Action::Send(Operation::Privmsg { target: s("#c"), body: s("hi all") }));
}

#[test]
fn test_dispatch_tui_quit_sends_bare_quit() {
    let mut d = Dispatcher::new();
    let a = d.dispatch(Event::TuiQuit);
    assert_eq!(a, Action::SendAndExit(Operation::Quit { message: s("") }));
    assert_eq!(d.transcript, vec![s("Quitting")]);
}

#[test]
fn test_dispatch_uncategorized_server_event_exits() {
    let mut d = Dispatcher::new();
    assert_eq!(d.dispatch(Event::IrcMotd(s("motd"))), Action::Exit);
    assert_eq!(d.dispatch(Event::IrcWelcome), Action::Exit);
    assert!(d.transcript.is_empty());
}

// ---------------- connection lifecycle ----------------

#[test]
fn test_lifecycle_happy_path() {
    let s0 = ConnState::Unconnected;
    assert!(!can_send(s0));
    let s1 = conn_step(s0, ConnEvent::CredentialsSubmitted);
    assert_eq!(s1, ConnState::Connecting);
    assert!(!can_send(s1));
    let s2 = conn_step(s1, ConnEvent::ConnectSucceeded);
    assert_eq!(s2, ConnState::Identified);
    assert!(can_send(s2));
    assert_eq!(ready_to_send(s2), Ok(()));
    let s3 = conn_step(s2, ConnEvent::QuitIssued);
    assert_eq!(s3, ConnState::Closed);
    assert_eq!(ready_to_send(s3), Err(SendError::NotConnected));
}

#[test]
fn test_connect_failure_allows_retry() {
    let s1 = conn_step(ConnState::Unconnected, ConnEvent::CredentialsSubmitted);
    let s2 = conn_step(s1, ConnEvent::ConnectFailed);
    assert_eq!(s2, ConnState::Unconnected);
    assert_eq!(conn_step(s2, ConnEvent::CredentialsSubmitted), ConnState::Connecting);
}

#[test]
fn test_closed_stays_closed() {
    for e in [
        ConnEvent::CredentialsSubmitted,
        ConnEvent::ConnectSucceeded,
        ConnEvent::ConnectFailed,
        ConnEvent::StreamEnded,
        ConnEvent::QuitIssued,
    ] {
        assert_eq!(conn_step(ConnState::Closed, e), ConnState::Closed);
    }
}

#[test]
fn test_stream_end_closes() {
    assert_eq!(conn_step(ConnState::Identified, ConnEvent::StreamEnded), ConnState::Closed);
}

#[test]
fn test_send_guard_rejects_unconnected() {
    assert_eq!(ready_to_send(ConnState::Unconnected), Err(SendError::NotConnected));
    assert_eq!(ready_to_send(ConnState::Connecting), Err(SendError::NotConnected));
}

// ---------------- login form ----------------

#[test]
fn test_check_credentials() {
    assert_eq!(
        check_credentials("server", "name", "#channel"),
        Ok(Event::TuiCredentials(s("name"), s("#channel"), s("server")))
    );
}

#[test]
fn test_check_credentials_rejects_bad_channel() {
    assert_eq!(check_credentials("server", "name", "channel"), Err(TuiError::ChannelError));
    assert_eq!(check_credentials("server", "name", ""), Err(TuiError::ChannelError));
}

#[test]
fn test_input_event_quit_word() {
    assert_eq!(input_event("me", "QUIT"), Event::TuiQuit);
    assert_eq!(input_event("me", "quit"), Event::TuiQuit);
    assert_eq!(input_event("me", "QuIt"), Event::TuiQuit);
}

#[test]
fn test_input_event_ordinary_lines() {
    assert_eq!(input_event("me", "hello"), Event::TuiMessage(s("me"), s("hello")));
    assert_eq!(input_event("me", "quit now"), Event::TuiMessage(s("me"), s("quit now")));
    assert_eq!(input_event("me", "quitting"), Event::TuiMessage(s("me"), s("quitting")));
}
