use snippets::websocket::{
    connect_target, contains_bytes, start, step, text_contains, ClientError, Command, Ending,
    Event, Incoming, Outgoing, State, GREETING,
};
use std::io;
use tokio_tungstenite::tungstenite::Error as SocketError;

#[test]
fn start_accepts_an_absolute_url() {
    let url = start("wss://echo.websocket.org").expect("an absolute URL");
    assert_eq!(url.scheme(), "wss");
    assert_eq!(url.host_str(), Some("echo.websocket.org"));
    assert_eq!(url.as_str(), "wss://echo.websocket.org/");
}

#[test]
fn start_refuses_what_is_no_absolute_url() {
    assert!(matches!(start("not a url"), Err(ClientError::InvalidUrl(_))));
    assert!(matches!(start(""), Err(ClientError::InvalidUrl(_))));
    assert!(matches!(start("/relative/path"), Err(ClientError::InvalidUrl(_))));
    match start("ws://[not-an-address]/") {
        Err(ClientError::InvalidUrl(error)) => {
            assert_eq!(error, url::ParseError::InvalidIpv6Address)
        }
        other => panic!("unexpected outcome: {:?}", other),
    }
}

#[test]
fn connect_target_keeps_the_url_and_wraps_the_error() {
    let url = url::Url::parse("ws://localhost:9001/chat").unwrap();
    assert_eq!(connect_target(Ok(url.clone())).unwrap(), url);
    assert!(matches!(
        connect_target(Err(url::ParseError::EmptyHost)),
        Err(ClientError::InvalidUrl(url::ParseError::EmptyHost))
    ));
}

#[test]
fn bytes_are_found_where_they_stand() {
    assert!(contains_bytes(b"hello world", b"hello"));
    assert!(contains_bytes(b"hello world", b"world"));
    assert!(contains_bytes(b"hello world", b"o w"));
    assert!(contains_bytes(b"hello world", b"hello world"));
    assert!(contains_bytes(b"aab", b"ab"));
}

#[test]
fn bytes_are_not_found_where_they_do_not_stand() {
    assert!(!contains_bytes(b"hello world", b"worlds"));
    assert!(!contains_bytes(b"hello", b"hello world"));
    assert!(!contains_bytes(b"abcabd", b"abe"));
    assert!(!contains_bytes(b"", b"a"));
}

#[test]
fn nothing_is_found_everywhere() {
    assert!(contains_bytes(b"abc", b""));
    assert!(contains_bytes(b"", b""));
}

#[test]
fn text_search_agrees_with_the_standard_library() {
    let texts = ["", "a", "Hello", "na\u{ef}ve caf\u{e9}", "\u{4f60}\u{597d}, world", "aaab"];
    let patterns = ["", "a", "ab", "\u{e9}", "\u{597d},", "world", "Hello!"];
    for text in texts {
        for pattern in patterns {
            assert_eq!(text_contains(text, pattern), text.contains(pattern));
        }
    }
}

#[test]
fn connection_leads_to_the_greeting() {
    assert_eq!(GREETING, "Hello, WebSocket from Rust!");
    match step(State::Connecting, Event::Connected) {
        (State::Greeting, Command::Send(Outgoing::Text(text))) => assert_eq!(text, GREETING),
        other => panic!("unexpected move: {:?}", other),
    }
}

#[test]
fn failed_connection_reaches_the_caller_as_it_came() {
    let refused = io::Error::new(io::ErrorKind::ConnectionRefused, "connection refused");
    match step(State::Connecting, Event::ConnectFailed(SocketError::Io(refused))) {
        (State::Finished, Command::Stop(Err(ClientError::Connect(SocketError::Io(source))))) => {
            assert_eq!(source.kind(), io::ErrorKind::ConnectionRefused);
            assert_eq!(source.to_string(), "connection refused");
        }
        other => panic!("unexpected move: {:?}", other),
    }
    assert!(matches!(
        step(State::Connecting, Event::ConnectFailed(SocketError::Utf8)),
        (State::Finished, Command::Stop(Err(ClientError::Connect(SocketError::Utf8))))
    ));
}

#[test]
fn after_sending_the_client_listens() {
    assert!(matches!(step(State::Greeting, Event::Sent), (State::Listening, Command::Receive)));
    assert!(matches!(step(State::Answering, Event::Sent), (State::Listening, Command::Receive)));
}

#[test]
fn failed_send_reaches_the_caller_as_it_came() {
    for state in [State::Greeting, State::Answering] {
        let broken = io::Error::new(io::ErrorKind::BrokenPipe, "broken pipe");
        match step(state, Event::SendFailed(SocketError::Io(broken))) {
            (State::Finished, Command::Stop(Err(ClientError::Send(SocketError::Io(source))))) => {
                assert_eq!(source.kind(), io::ErrorKind::BrokenPipe);
                assert_eq!(source.to_string(), "broken pipe");
            }
            other => panic!("unexpected move: {:?}", other),
        }
        assert!(matches!(
            step(state, Event::SendFailed(SocketError::AlreadyClosed)),
            (State::Finished, Command::Stop(Err(ClientError::Send(SocketError::AlreadyClosed))))
        ));
    }
}

#[test]
fn the_echo_ends_the_client() {
    let echo = Event::Received(Incoming::Text(GREETING.to_string()));
    assert!(matches!(
        step(State::Listening, echo),
        (State::Finished, Command::Stop(Ok(Ending::EchoReceived)))
    ));
    let wrapped = Event::Received(Incoming::Text(format!("echo: {} (1)", GREETING)));
    assert!(matches!(
        step(State::Listening, wrapped),
        (State::Finished, Command::Stop(Ok(Ending::EchoReceived)))
    ));
}

#[test]
fn other_text_keeps_the_client_listening() {
    for text in ["", "Hello", "Hello, WebSocket from Rust", "hello, websocket from rust!"] {
        let event = Event::Received(Incoming::Text(text.to_string()));
        assert!(matches!(step(State::Listening, event), (State::Listening, Command::Receive)));
    }
}

#[test]
fn a_ping_is_answered_with_its_own_payload() {
    let event = Event::Received(Incoming::Ping(vec![1, 2, 3]));
    match step(State::Listening, event) {
        (State::Answering, Command::Send(Outgoing::Pong(payload))) => {
            assert_eq!(payload, vec![1, 2, 3])
        }
        other => panic!("unexpected move: {:?}", other),
    }
}

#[test]
fn binary_pong_and_frame_keep_the_client_listening() {
    for message in [Incoming::Binary(vec![9]), Incoming::Pong(vec![]), Incoming::Frame] {
        assert!(matches!(
            step(State::Listening, Event::Received(message)),
            (State::Listening, Command::Receive)
        ));
    }
}

#[test]
fn close_and_end_stop_without_error() {
    assert!(matches!(
        step(State::Listening, Event::Received(Incoming::Close)),
        (State::Finished, Command::Stop(Ok(Ending::ClosedByServer)))
    ));
    assert!(matches!(
        step(State::Listening, Event::StreamEnded),
        (State::Finished, Command::Stop(Ok(Ending::StreamEnded)))
    ));
}

#[test]
fn failed_receive_reaches_the_caller_as_an_error() {
    let reset = io::Error::new(io::ErrorKind::ConnectionReset, "connection reset");
    match step(State::Listening, Event::ReceiveFailed(SocketError::Io(reset))) {
        (State::Finished, Command::Stop(Err(ClientError::Receive(SocketError::Io(source))))) => {
            assert_eq!(source.kind(), io::ErrorKind::ConnectionReset);
            assert_eq!(source.to_string(), "connection reset");
        }
        other => panic!("unexpected move: {:?}", other),
    }
    assert!(matches!(
        step(State::Listening, Event::ReceiveFailed(SocketError::ConnectionClosed)),
        (State::Finished, Command::Stop(Err(ClientError::Receive(SocketError::ConnectionClosed))))
    ));
}

#[test]
fn a_session_that_fails_while_listening_ends_in_the_failure() {
    let single_events = vec![
        Event::Connected,
        Event::Sent,
        Event::Received(Incoming::Text("welcome".to_string())),
        Event::ReceiveFailed(SocketError::AttackAttempt),
    ];
    let mut state = State::Connecting;
    let mut last = None;
    for event in single_events {
        assert_ne!(state, State::Finished);
        let (next, command) = step(state, event);
        state = next;
        last = Some(command);
    }
    assert_eq!(state, State::Finished);
    assert!(matches!(
        last,
        Some(Command::Stop(Err(ClientError::Receive(SocketError::AttackAttempt))))
    ));
}

#[test]
fn an_event_out_of_turn_ends_the_client() {
    assert!(matches!(
        step(State::Connecting, Event::Sent),
        (State::Finished, Command::Stop(Err(ClientError::OutOfTurn)))
    ));
    assert!(matches!(
        step(State::Greeting, Event::Received(Incoming::Close)),
        (State::Finished, Command::Stop(Err(ClientError::OutOfTurn)))
    ));
    assert!(matches!(
        step(State::Listening, Event::Connected),
        (State::Finished, Command::Stop(Err(ClientError::OutOfTurn)))
    ));
    assert!(matches!(
        step(State::Finished, Event::StreamEnded),
        (State::Finished, Command::Stop(Err(ClientError::OutOfTurn)))
    ));
    assert!(matches!(
        step(State::Connecting, Event::ReceiveFailed(SocketError::Utf8)),
        (State::Finished, Command::Stop(Err(ClientError::OutOfTurn)))
    ));
}

#[test]
fn a_whole_session_with_a_ping_before_the_echo() {
    let events = vec![
        Event::Connected,
        Event::Sent,
        Event::Received(Incoming::Ping(vec![7])),
        Event::Sent,
        Event::Received(Incoming::Text("welcome".to_string())),
        Event::Received(Incoming::Text(GREETING.to_string())),
    ];
    let mut state = State::Connecting;
    let mut last = None;
    for event in events {
        assert_ne!(state, State::Finished);
        let (next, command) = step(state, event);
        state = next;
        last = Some(command);
    }
    assert_eq!(state, State::Finished);
    assert!(matches!(last, Some(Command::Stop(Ok(Ending::EchoReceived)))));
}
