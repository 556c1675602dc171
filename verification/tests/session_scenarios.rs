use arch_forum::command::parse_command;
use arch_forum::engine::accepts_handshake;
use arch_forum::session::{Event, HandshakePolicy, Next, Phase, Request, Session};

fn verified_session() -> Session {
    let mut session = Session::new(HandshakePolicy::AnyText);
    let reply = session.step(Event::Received(b"arch\n".to_vec()));
    assert!(matches!(reply.next, Next::Read { .. }));
    session
}

fn logged_in_session(name: &str, password: &str) -> Session {
    let mut session = verified_session();
    session.step(Event::Received(b"login\n".to_vec()));
    session.step(Event::Received(name.as_bytes().to_vec()));
    let reply = session.step(Event::Received(password.as_bytes().to_vec()));
    assert_eq!(reply.output, "Login successful!\r\n");
    session
}

#[test]
fn list_after_handshake_shows_header_and_numbered_titles() {
    let mut session = Session::new(HandshakePolicy::AnyText);
    let opening = Session::open();
    assert_eq!(
        opening.output,
        "Welcome to Arch Forum SSH Server\r\nArch Linux verification required...\r\n"
    );
    assert!(matches!(opening.next, Next::Read { limit: 1024, .. }));
    let welcome = session.step(Event::Received(b"arch\n".to_vec()));
    assert_eq!(
        welcome.output,
        "Arch Linux verified! Welcome.\r\n\r\n=== ARCH FORUM ===\r\nCommands: login, list, post, reply, help, quit\r\n"
    );
    match welcome.next {
        Next::Read { prompt, limit } => {
            assert_eq!(prompt, "forum> ");
            assert_eq!(limit, 256);
        }
        other => panic!("unexpected {:?}", other),
    }
    let header = session.step(Event::Received(b"list\n".to_vec()));
    assert_eq!(header.output, "\r\nRecent threads:\r\n");
    assert!(matches!(header.next, Next::Call(Request::ListThreads { limit: 10 })));
    let threads: Vec<(String, String)> = (1..=12)
        .map(|i| (format!("title {}", i), format!("author {}", i)))
        .collect();
    let listing = session.step(Event::Threads(threads));
    let expected: String = (1..=10).map(|i| format!("[{}] title {}\r\n", i, i)).collect();
    assert_eq!(listing.output, expected);
    assert!(matches!(session.phase, Phase::AwaitingCommand));
}

#[test]
fn login_succeeds_whatever_the_password() {
    for password in ["x", "", "correct horse", "\n"] {
        let mut session = verified_session();
        let ask_name = session.step(Event::Received(b"login\n".to_vec()));
        assert_eq!(ask_name.output, "");
        match ask_name.next {
            Next::Read { prompt, limit } => {
                assert_eq!(prompt, "Username: ");
                assert_eq!(limit, 64);
            }
            other => panic!("unexpected {:?}", other),
        }
        let ask_password = session.step(Event::Received(b"alice\n".to_vec()));
        match ask_password.next {
            Next::Read { prompt, limit } => {
                assert_eq!(prompt, "Password: ");
                assert_eq!(limit, 64);
            }
            other => panic!("unexpected {:?}", other),
        }
        let payload = if password.is_empty() { b"\n".to_vec() } else { password.as_bytes().to_vec() };
        let done = session.step(Event::Received(payload));
        assert_eq!(done.output, "Login successful!\r\n");
        assert_eq!(session.current_user.as_deref(), Some("alice"));
    }
}

#[test]
fn post_sends_joined_lines_to_the_backend() {
    let mut session = logged_in_session("alice\n", "x\n");
    let start = session.step(Event::Received(b"post Hello\n".to_vec()));
    assert_eq!(start.output, "Enter thread content (end with '.' on new line):\r\n");
    for line in ["line one\n", "line two\n"] {
        let reply = session.step(Event::Received(line.as_bytes().to_vec()));
        assert_eq!(reply.output, "");
        match reply.next {
            Next::Read { prompt, limit } => {
                assert_eq!(prompt, "> ");
                assert_eq!(limit, 256);
            }
            other => panic!("unexpected {:?}", other),
        }
    }
    let end = session.step(Event::Received(b".\n".to_vec()));
    match end.next {
        Next::Call(Request::CreateThread { title, content, author }) => {
            assert_eq!(title, "Hello");
            assert_eq!(content, "line one\nline two");
            assert_eq!(author, "alice");
        }
        other => panic!("unexpected {:?}", other),
    }
    let stored = session.step(Event::Outcome(true));
    assert_eq!(stored.output, "Thread created successfully!\r\n");
}

#[test]
fn quit_says_goodbye_and_closes() {
    for word in ["quit\n", "exit\r\n", "  quit  "] {
        let mut session = verified_session();
        let reply = session.step(Event::Received(word.as_bytes().to_vec()));
        assert_eq!(reply.output, "Goodbye!\r\n");
        assert!(matches!(reply.next, Next::Close));
        assert!(session.is_terminated());
    }
}

fn text(bytes: &str) -> Event {
    Event::Received(bytes.as_bytes().to_vec())
}

fn expect_prompt(next: Next, prompt: &str, limit: usize) {
    match next {
        Next::Read { prompt: p, limit: l } => {
            assert_eq!(p, prompt);
            assert_eq!(l, limit);
        }
        other => panic!("unexpected {:?}", other),
    }
}

#[test]
fn blank_handshake_is_denied() {
    for payload in ["\n", "   ", "\r\n\t"] {
        let mut session = Session::new(HandshakePolicy::AnyText);
        let reply = session.step(text(payload));
        assert_eq!(reply.output, "Access denied: Arch Linux required\r\n");
        assert!(matches!(reply.next, Next::Close));
        assert!(session.is_terminated());
        assert!(!session.authenticated);
    }
}

#[test]
fn closed_connection_at_the_greeting_is_denied() {
    let mut session = Session::new(HandshakePolicy::AnyText);
    let reply = session.step(Event::Received(Vec::new()));
    assert_eq!(reply.output, "Access denied: Arch Linux required\r\n");
    assert!(matches!(reply.next, Next::Close));
    assert!(session.is_terminated());
}

#[test]
fn any_text_rule_lets_every_word_in() {
    for payload in ["hello\n", "arch", "linux rocks", "x"] {
        let mut session = Session::new(HandshakePolicy::AnyText);
        let reply = session.step(text(payload));
        assert!(reply.output.starts_with("Arch Linux verified! Welcome.\r\n"));
        assert!(session.authenticated);
        assert!(matches!(session.phase, Phase::AwaitingCommand));
    }
}

#[test]
fn keyword_rule_asks_for_arch_or_linux() {
    for (payload, accepted) in [
        ("hello\n", false),
        ("arch\n", true),
        ("I run linux", true),
        ("Arch", false),
        ("ar ch", false),
        ("", false),
    ] {
        let mut session = Session::new(HandshakePolicy::Keyword);
        let reply = if payload.is_empty() {
            session.step(Event::Received(Vec::new()))
        } else {
            session.step(text(payload))
        };
        assert_eq!(session.authenticated, accepted, "{:?}", payload);
        assert_eq!(matches!(reply.next, Next::Close), !accepted);
        assert_eq!(accepts_handshake(HandshakePolicy::Keyword, payload), accepted);
    }
}

#[test]
fn post_without_login_gets_the_hint_and_no_backend_call() {
    let mut session = verified_session();
    let reply = session.step(text("post Hello\n"));
    assert_eq!(reply.output, "Please login to post. Type 'login'.\r\n");
    expect_prompt(reply.next, "forum> ", 256);
    assert!(matches!(session.phase, Phase::AwaitingCommand));
    assert!(session.pending.is_empty());
}

#[test]
fn reply_without_login_gets_the_hint_and_no_backend_call() {
    let mut session = verified_session();
    let reply = session.step(text("reply\n"));
    assert_eq!(reply.output, "Please login to reply. Type 'login'.\r\n");
    expect_prompt(reply.next, "forum> ", 256);
    assert!(matches!(session.phase, Phase::AwaitingCommand));
}

#[test]
fn no_store_request_ever_comes_from_a_session_without_user() {
    let inputs = [
        "post a\n", "x\n", ".\n", "reply\n", "7\n", "text\n", ".\n", "list\n", "help\n", ".",
        "post\n", "post b", ".",
    ];
    let mut session = verified_session();
    for input in inputs {
        let reply = session.step(text(input));
        if let Next::Call(request) = &reply.next {
            assert!(matches!(request, Request::ListThreads { .. }));
            session.step(Event::ThreadsFailed);
        }
        assert!(session.current_user.is_none());
    }
}

#[test]
fn capture_keeps_every_line_but_the_sentinel() {
    let mut session = logged_in_session("bob", "pw");
    session.step(text("post T\n"));
    let lines = [
        "first\n", "\n", "  indented  \n", "..\n", ". .\n", " .\n", ". \n", " .\r\n", ".\t\r\n",
        "x.\n", ".\n\n", ".\r", "\r\n", "tab\there\r\n", "last",
    ];
    for line in lines {
        let reply = session.step(text(line));
        assert_eq!(reply.output, "");
        expect_prompt(reply.next, "> ", 256);
        assert!(matches!(session.phase, Phase::Capture { .. }), "{:?}", line);
    }
    assert_eq!(
        session.pending,
        vec![
            "first", "", "  indented  ", "..", ". .", " .", ". ", " .", ".\t", "x.", ".\n", ".\r",
            "", "tab\there", "last",
        ]
    );
    let end = session.step(text(".\r\n"));
    match end.next {
        Next::Call(Request::CreateThread { title, content, author }) => {
            assert_eq!(title, "T");
            assert_eq!(
                content,
                "first\n\n  indented  \n..\n. .\n .\n. \n .\n.\t\nx.\n.\n\n.\r\n\ntab\there\nlast"
            );
            assert_eq!(author, "bob");
        }
        other => panic!("unexpected {:?}", other),
    }
    assert!(session.pending.is_empty());
    assert!(matches!(session.phase, Phase::AwaitingOutcome { comment: false }));
}

#[test]
fn capture_ends_on_a_dot_with_or_without_its_line_end() {
    for sentinel in [".", ".\n", ".\r\n"] {
        let mut session = logged_in_session("bob", "pw");
        session.step(text("post T\n"));
        session.step(text(" kept as it came \r\n"));
        let end = session.step(text(sentinel));
        match end.next {
            Next::Call(Request::CreateThread { content, .. }) => {
                assert_eq!(content, " kept as it came ");
            }
            other => panic!("{:?} gave {:?}", sentinel, other),
        }
    }
}

#[test]
fn blanks_around_the_dot_never_end_a_capture() {
    let mut session = logged_in_session("bob", "pw");
    session.step(text("reply\n"));
    session.step(text("7\n"));
    for line in [" .", ". ", " .\n", ".\n ", "\t.\r\n", ".\r\n\r\n", "\n.", ". x", "x."] {
        for _ in 0..3 {
            let reply = session.step(text(line));
            assert!(matches!(reply.next, Next::Read { .. }), "{:?}", line);
            assert!(matches!(session.phase, Phase::Capture { .. }), "{:?}", line);
        }
    }
    assert_eq!(session.pending.len(), 27);
    let gone = session.step(Event::Broken);
    assert!(matches!(gone.next, Next::Close));
}

#[test]
fn capture_of_nothing_sends_an_empty_content() {
    let mut session = logged_in_session("bob", "pw");
    session.step(text("post Empty\n"));
    let end = session.step(text(".\n"));
    match end.next {
        Next::Call(Request::CreateThread { title, content, author }) => {
            assert_eq!(title, "Empty");
            assert_eq!(content, "");
            assert_eq!(author, "bob");
        }
        other => panic!("unexpected {:?}", other),
    }
}

#[test]
fn capture_without_sentinel_makes_no_backend_call() {
    let mut session = logged_in_session("bob", "pw");
    session.step(text("post T\n"));
    for i in 0..200 {
        let reply = session.step(text(&format!("line {}\n", i)));
        assert!(matches!(reply.next, Next::Read { .. }));
    }
    assert_eq!(session.pending.len(), 200);
    let gone = session.step(Event::Received(Vec::new()));
    assert_eq!(gone.output, "");
    assert!(matches!(gone.next, Next::Close));
    assert!(session.is_terminated());
    assert!(session.pending.is_empty());
}

#[test]
fn reply_asks_for_the_thread_and_sends_a_comment() {
    let mut session = logged_in_session("carol\r\n", "secret");
    let ask = session.step(text("reply\n"));
    assert_eq!(ask.output, "");
    expect_prompt(ask.next, "Reply to thread ID: ", 64);
    let start = session.step(text(" 42 \n"));
    assert_eq!(start.output, "Enter reply (end with '.' on new line):\r\n");
    expect_prompt(start.next, "> ", 256);
    session.step(text("I agree\n"));
    session.step(text("fully\n"));
    let end = session.step(text(".\n"));
    match end.next {
        Next::Call(Request::CreateComment { thread_id, content, author }) => {
            assert_eq!(thread_id, "42");
            assert_eq!(content, "I agree\nfully");
            assert_eq!(author, "carol");
        }
        other => panic!("unexpected {:?}", other),
    }
    let done = session.step(Event::Outcome(true));
    assert_eq!(done.output, "Reply posted successfully!\r\n");
    expect_prompt(done.next, "forum> ", 256);
}

#[test]
fn backend_failures_are_reported_and_the_session_goes_on() {
    let mut session = logged_in_session("dave", "pw");
    session.step(text("list\n"));
    let failed = session.step(Event::ThreadsFailed);
    assert_eq!(failed.output, "Error loading threads\r\n");
    expect_prompt(failed.next, "forum> ", 256);

    session.step(text("post T\n"));
    session.step(text(".\n"));
    let failed = session.step(Event::Outcome(false));
    assert_eq!(failed.output, "Error creating thread\r\n");
    expect_prompt(failed.next, "forum> ", 256);

    session.step(text("reply\n"));
    session.step(text("1\n"));
    session.step(text(".\n"));
    let failed = session.step(Event::Outcome(false));
    assert_eq!(failed.output, "Error posting reply\r\n");
    assert!(matches!(session.phase, Phase::AwaitingCommand));
}

#[test]
fn list_shows_fewer_than_ten_threads_as_they_come() {
    let mut session = verified_session();
    session.step(text("list\n"));
    let threads = vec![
        ("zebra".to_string(), "a".to_string()),
        ("apple".to_string(), "b".to_string()),
        ("mango".to_string(), "c".to_string()),
    ];
    let reply = session.step(Event::Threads(threads));
    assert_eq!(reply.output, "[1] zebra\r\n[2] apple\r\n[3] mango\r\n");
    let mut session = verified_session();
    session.step(text("list\n"));
    let reply = session.step(Event::Threads(Vec::new()));
    assert_eq!(reply.output, "");
    expect_prompt(reply.next, "forum> ", 256);
}

#[test]
fn help_depends_on_login() {
    let mut session = verified_session();
    let reply = session.step(text("help\n"));
    assert_eq!(
        reply.output,
        "\r\nCommands:\r\n  list  - Show recent threads (read-only)\r\n  login - Login to post\r\n  help  - Show this help\r\n  quit  - Exit forum\r\n"
    );
    let mut session = logged_in_session("erin", "pw");
    let reply = session.step(text("help\n"));
    assert_eq!(
        reply.output,
        "\r\nCommands:\r\n  list  - Show recent threads\r\n  post  - Create new thread\r\n  reply - Reply to thread\r\n  help  - Show this help\r\n  quit  - Exit forum\r\n"
    );
}

#[test]
fn second_login_is_refused() {
    let mut session = logged_in_session("erin", "pw");
    assert!(session.logged_in());
    let reply = session.step(text("login\n"));
    assert_eq!(reply.output, "Already logged in.\r\n");
    expect_prompt(reply.next, "forum> ", 256);
    assert_eq!(session.current_user.as_deref(), Some("erin"));
}

#[test]
fn unknown_commands_get_a_hint() {
    for line in ["\n", "frobnicate\n", "post\n", "LIST\n"] {
        let mut session = verified_session();
        let reply = session.step(text(line));
        assert_eq!(reply.output, "Unknown command. Type 'help'.\r\n");
        expect_prompt(reply.next, "forum> ", 256);
    }
}

#[test]
fn closed_or_broken_connection_ends_the_session_in_every_phase() {
    let scripts: [&[&str]; 6] = [
        &[],
        &["login\n"],
        &["login\n", "u\n"],
        &["login\n", "u\n", "p\n", "reply\n"],
        &["login\n", "u\n", "p\n", "post t\n", "a\n"],
        &["login\n", "u\n", "p\n"],
    ];
    for script in scripts {
        for broken in [false, true] {
            let mut session = verified_session();
            for line in script {
                session.step(text(line));
            }
            let event = if broken { Event::Broken } else { Event::Received(Vec::new()) };
            let reply = session.step(event);
            assert_eq!(reply.output, "");
            assert!(matches!(reply.next, Next::Close));
            assert!(session.is_terminated());
        }
    }
}

#[test]
fn terminated_session_stays_terminated() {
    let mut session = verified_session();
    session.step(text("quit\n"));
    let events = vec![
        text("list\n"),
        Event::Threads(vec![("t".to_string(), "a".to_string())]),
        Event::ThreadsFailed,
        Event::Outcome(true),
        Event::Broken,
        Event::Received(Vec::new()),
    ];
    for event in events {
        let reply = session.step(event);
        assert_eq!(reply.output, "");
        assert!(matches!(reply.next, Next::Close));
        assert!(session.is_terminated());
    }
}

#[test]
fn events_that_are_not_awaited_end_the_session() {
    let mut session = verified_session();
    let reply = session.step(Event::Outcome(true));
    assert!(matches!(reply.next, Next::Close));
    assert!(session.is_terminated());

    let mut session = verified_session();
    session.step(text("list\n"));
    let reply = session.step(text("list\n"));
    assert!(matches!(reply.next, Next::Close));

    let mut session = verified_session();
    let reply = session.step(Event::Threads(Vec::new()));
    assert!(matches!(reply.next, Next::Close));
}

#[test]
fn interleaved_sessions_do_not_see_each_other() {
    let script_a = ["login\n", "alice\n", "x\n", "post A\n", "a one\n", "a two\n"];
    let script_b = ["login\n", "bob\n", "y\n", "reply\n", "9\n", "b one\n"];

    let mut alone_a = verified_session();
    for line in script_a {
        alone_a.step(text(line));
    }
    let mut alone_b = verified_session();
    for line in script_b {
        alone_b.step(text(line));
    }

    let mut a = verified_session();
    let mut b = verified_session();
    let mut c = verified_session();
    for i in 0..script_a.len() {
        a.step(text(script_a[i]));
        c.step(text("help\n"));
        b.step(text(script_b[i]));
    }
    assert_eq!(a.current_user, alone_a.current_user);
    assert_eq!(a.pending, alone_a.pending);
    assert_eq!(b.current_user, alone_b.current_user);
    assert_eq!(b.pending, alone_b.pending);
    assert_eq!(a.current_user.as_deref(), Some("alice"));
    assert_eq!(b.current_user.as_deref(), Some("bob"));
    assert_eq!(a.pending, vec!["a one", "a two"]);
    assert_eq!(b.pending, vec!["b one"]);
    assert!(c.current_user.is_none());
    assert!(c.pending.is_empty());

    let end_a = a.step(text(".\n"));
    let end_b = b.step(text(".\n"));
    match end_a.next {
        Next::Call(Request::CreateThread { title, content, author }) => {
            assert_eq!((title.as_str(), content.as_str(), author.as_str()), ("A", "a one\na two", "alice"));
        }
        other => panic!("unexpected {:?}", other),
    }
    match end_b.next {
        Next::Call(Request::CreateComment { thread_id, content, author }) => {
            assert_eq!((thread_id.as_str(), content.as_str(), author.as_str()), ("9", "b one", "bob"));
        }
        other => panic!("unexpected {:?}", other),
    }
}

#[test]
fn bytes_that_are_no_utf8_are_replaced_not_refused() {
    let mut session = logged_in_session("frank", "pw");
    session.step(text("post T\n"));
    session.step(Event::Received(vec![b'a', 0xFF, b'b', b'\n']));
    assert_eq!(session.pending, vec!["a\u{fffd}b"]);
    let mut session = Session::new(HandshakePolicy::AnyText);
    let reply = session.step(Event::Received(vec![0xC3]));
    assert!(session.authenticated);
    assert!(matches!(reply.next, Next::Read { .. }));
}

#[test]
fn transitions_by_method_agree_with_step() {
    let mut by_step = verified_session();
    let mut by_method = Session::new(HandshakePolicy::AnyText);
    by_method.on_received(b"arch\n");
    for line in ["login\n", "gina\n", "pw\n", "post T\n", "body\n", ".\n"] {
        let a = by_step.step(text(line));
        let b = by_method.on_text(line);
        assert_eq!(a.output, b.output);
        assert_eq!(format!("{:?}", a.next), format!("{:?}", b.next));
    }
    let a = by_step.step(Event::Outcome(true));
    let b = by_method.on_outcome(true);
    assert_eq!(a.output, b.output);
    let a = by_step.step(text("list\n"));
    let b = by_method.on_command(parse_command("list"));
    assert_eq!(a.output, b.output);
    let threads = vec![("t".to_string(), "a".to_string())];
    let a = by_step.step(Event::Threads(threads.clone()));
    let b = by_method.on_threads(&threads);
    assert_eq!(a.output, b.output);
    by_step.step(text("list\n"));
    by_method.on_text("list\n");
    assert_eq!(by_step.step(Event::ThreadsFailed).output, by_method.on_threads_failed().output);
    assert_eq!(by_step.step(Event::Broken).output, by_method.on_broken().output);
    assert!(by_method.is_terminated());
    let mut closed = verified_session();
    assert!(matches!(closed.on_closed().next, Next::Close));
}
