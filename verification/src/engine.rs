//! The executable session: each method performs one transition of the protocol.

use crate::command::{parse_command, Command};
use crate::listing::{render_listing, titles_of};
use crate::protocol::{
    accepts, asking, closing, initial, on_captured, on_command, on_handshake, opening, prompting,
    rejecting, step, well_formed,
};
use crate::session::{
    Event, HandshakePolicy, Input, Next, Phase, Reply, Request, Session, Target, FIELD_LIMIT,
    HANDSHAKE_LIMIT, LINE_LIMIT, LIST_LIMIT,
};
use crate::text::{contains, join, strip_line_end, text_eq, trim};
use crate::wire::{decode_lossy, lossy_text};
use vstd::prelude::*;
use vstd::string::*;

verus! {

/// The input that an event stands for: a read's bytes are decoded, and a read without bytes
/// means that the peer has closed the connection.
pub open spec fn input_of(event: Event) -> Input {
    match event {
        Event::Received(bytes) => if bytes@.len() == 0 {
            Input::Closed
        } else {
            Input::Text(lossy_text(bytes@))
        },
        Event::Threads(threads) => Input::Threads(titles_of(threads@)),
        Event::ThreadsFailed => Input::ThreadsFailed,
        Event::Outcome(stored) => Input::Outcome(stored),
        Event::Broken => Input::Broken,
    }
}

/// Decides whether a handshake payload is let in under `policy`.
pub fn accepts_handshake(policy: HandshakePolicy, payload: &str) -> (r: bool)
    ensures
        r == accepts(policy, payload@),
{
    if contains(payload, "arch") || contains(payload, "linux") {
        return true;
    }
    match policy {
        HandshakePolicy::AnyText => trim(payload).unicode_len() > 0,
        HandshakePolicy::Keyword => false,
    }
}

impl Session {
    /// A fresh session under `policy`.
    pub fn new(policy: HandshakePolicy) -> (s: Session)
        ensures
            s@ == initial(policy),
            well_formed(s@),
    {
        let s = Session {
            policy,
            authenticated: false,
            current_user: None,
            phase: Phase::Greeting,
            pending: Vec::new(),
        };
        assert(s@.pending =~= Seq::empty());
        s
    }

    /// The reply that opens every session: the banner, then the read of the handshake payload.
    pub fn open() -> (r: Reply)
        ensures
            r@ == opening(),
    {
        Reply {
            output: String::from_str(
                "Welcome to Arch Forum SSH Server\r\nArch Linux verification required...\r\n",
            ),
            next: Next::Read { prompt: String::new(), limit: HANDSHAKE_LIMIT },
        }
    }

    /// Whether a user is bound to the session.
    pub fn logged_in(&self) -> (r: bool)
        ensures
            r == (self@.current_user is Some),
    {
        self.current_user.is_some()
    }

    /// Whether the session is over.
    pub fn is_terminated(&self) -> (r: bool)
        ensures
            r == (self@.phase is Terminated),
    {
        match &self.phase {
            Phase::Terminated => true,
            _ => false,
        }
    }

    fn close(&mut self) -> (r: Reply)
        ensures
            (final(self)@, r@) == closing(old(self)@),
    {
        self.phase = Phase::Terminated;
        self.pending = Vec::new();
        assert(self@.pending =~= Seq::empty());
        Reply { output: String::new(), next: Next::Close }
    }

    fn reject(&mut self) -> (r: Reply)
        ensures
            (final(self)@, r@) == rejecting(old(self)@),
    {
        self.phase = Phase::Terminated;
        self.pending = Vec::new();
        assert(self@.pending =~= Seq::empty());
        Reply {
            output: String::from_str("Access denied: Arch Linux required\r\n"),
            next: Next::Close,
        }
    }

    fn prompt(&mut self, output: &str) -> (r: Reply)
        ensures
            (final(self)@, r@) == prompting(old(self)@, output@),
    {
        self.phase = Phase::AwaitingCommand;
        self.pending = Vec::new();
        assert(self@.pending =~= Seq::empty());
        Reply {
            output: String::from_str(output),
            next: Next::Read { prompt: String::from_str("forum> "), limit: LINE_LIMIT },
        }
    }

    fn ask(&mut self, phase: Phase, output: &str, prompt: &str, limit: usize) -> (r: Reply)
        ensures
            (final(self)@, r@) == asking(old(self)@, phase@, output@, prompt@, limit as nat),
    {
        self.phase = phase;
        Reply {
            output: String::from_str(output),
            next: Next::Read { prompt: String::from_str(prompt), limit },
        }
    }

    fn handshake(&mut self, payload: &str) -> (r: Reply)
        ensures
            (final(self)@, r@) == on_handshake(old(self)@, payload@),
    {
        if accepts_handshake(self.policy, payload) {
            self.authenticated = true;
            self.prompt(
                "Arch Linux verified! Welcome.\r\n\r\n=== ARCH FORUM ===\r\nCommands: login, list, post, reply, help, quit\r\n",
            )
        } else {
            self.reject()
        }
    }

    /// Performs the transition on a command. It is meant for a session that awaits a command,
    /// and does not look at the phase.
    pub fn on_command(&mut self, command: Command) -> (r: Reply)
        ensures
            (final(self)@, r@) == on_command(old(self)@, command@),
    {
        let logged_in = self.current_user.is_some();
        proof {
            reveal_strlit("");
            assert(""@ =~= Seq::<char>::empty());
        }
        match command {
            Command::List => {
                self.phase = Phase::AwaitingThreads;
                Reply {
                    output: String::from_str("\r\nRecent threads:\r\n"),
                    next: Next::Call(Request::ListThreads { limit: LIST_LIMIT }),
                }
            },
            Command::Login => {
                if logged_in {
                    self.prompt("Already logged in.\r\n")
                } else {
                    self.ask(Phase::AwaitingUsername, "", "Username: ", FIELD_LIMIT)
                }
            },
            Command::Help => {
                if logged_in {
                    self.prompt(
                        "\r\nCommands:\r\n  list  - Show recent threads\r\n  post  - Create new thread\r\n  reply - Reply to thread\r\n  help  - Show this help\r\n  quit  - Exit forum\r\n",
                    )
                } else {
                    self.prompt(
                        "\r\nCommands:\r\n  list  - Show recent threads (read-only)\r\n  login - Login to post\r\n  help  - Show this help\r\n  quit  - Exit forum\r\n",
                    )
                }
            },
            Command::Post(title) => {
                if logged_in {
                    self.pending = Vec::new();
                    assert(self@.pending =~= Seq::empty());
                    self.ask(
                        Phase::Capture { target: Target::Thread { title } },
                        "Enter thread content (end with '.' on new line):\r\n",
                        "> ",
                        LINE_LIMIT,
                    )
                } else {
                    self.prompt("Please login to post. Type 'login'.\r\n")
                }
            },
            Command::Reply => {
                if logged_in {
                    self.ask(Phase::AwaitingThreadId, "", "Reply to thread ID: ", FIELD_LIMIT)
                } else {
                    self.prompt("Please login to reply. Type 'login'.\r\n")
                }
            },
            Command::Quit => {
                self.phase = Phase::Terminated;
                self.pending = Vec::new();
                assert(self@.pending =~= Seq::empty());
                Reply { output: String::from_str("Goodbye!\r\n"), next: Next::Close }
            },
            Command::Unknown(_) => self.prompt("Unknown command. Type 'help'.\r\n"),
        }
    }

    fn captured(&mut self, line: &str) -> (r: Reply)
        requires
            old(self).phase is Capture,
        ensures
            (final(self)@, r@) == on_captured(old(self)@, old(self)@.phase->target, line@),
    {
        if text_eq(line, ".") {
            let author = match &self.current_user {
                Some(name) => name.clone(),
                None => {
                    return self.close();
                },
            };
            let content = join(&self.pending, "\n");
            let (request, comment) = match &self.phase {
                Phase::Capture { target: Target::Thread { title } } => (
                    Request::CreateThread { title: title.clone(), content, author },
                    false,
                ),
                Phase::Capture { target: Target::Comment { thread_id } } => (
                    Request::CreateComment { thread_id: thread_id.clone(), content, author },
                    true,
                ),
                _ => {
                    return self.close();
                },
            };
            self.phase = Phase::AwaitingOutcome { comment };
            self.pending = Vec::new();
            assert(self@.pending =~= Seq::empty());
            Reply { output: String::new(), next: Next::Call(request) }
        } else {
            self.pending.push(String::from_str(line));
            assert(self@.pending =~= old(self)@.pending.push(line@));
            Reply {
                output: String::new(),
                next: Next::Read { prompt: String::from_str("> "), limit: LINE_LIMIT },
            }
        }
    }

    /// Performs the transition on the text of one read that returned bytes.
    pub fn on_text(&mut self, payload: &str) -> (r: Reply)
        ensures
            (final(self)@, r@) == step(old(self)@, Input::Text(payload@)),
    {
        proof {
            reveal_strlit("");
            assert(""@ =~= Seq::<char>::empty());
        }
        match &self.phase {
            Phase::Greeting => self.handshake(payload),
            Phase::AwaitingCommand => {
                let command = parse_command(trim(payload));
                self.on_command(command)
            },
            Phase::AwaitingUsername => {
                let username = String::from_str(trim(payload));
                self.ask(Phase::AwaitingPassword { username }, "", "Password: ", FIELD_LIMIT)
            },
            Phase::AwaitingPassword { username } => {
                let username = username.clone();
                self.current_user = Some(username);
                self.prompt("Login successful!\r\n")
            },
            Phase::AwaitingThreadId => {
                let thread_id = String::from_str(trim(payload));
                self.pending = Vec::new();
                assert(self@.pending =~= Seq::empty());
                self.ask(
                    Phase::Capture { target: Target::Comment { thread_id } },
                    "Enter reply (end with '.' on new line):\r\n",
                    "> ",
                    LINE_LIMIT,
                )
            },
            Phase::Capture { .. } => self.captured(strip_line_end(payload)),
            Phase::AwaitingThreads => self.close(),
            Phase::AwaitingOutcome { .. } => self.close(),
            Phase::Terminated => self.close(),
        }
    }

    /// Performs the transition on a read that returned no bytes: the peer has closed the
    /// connection.
    pub fn on_closed(&mut self) -> (r: Reply)
        ensures
            (final(self)@, r@) == step(old(self)@, Input::Closed),
    {
        match &self.phase {
            Phase::Greeting => self.reject(),
            _ => self.close(),
        }
    }

    /// Performs the transition on the recent threads that the backend returned.
    pub fn on_threads(&mut self, threads: &Vec<(String, String)>) -> (r: Reply)
        ensures
            (final(self)@, r@) == step(old(self)@, Input::Threads(titles_of(threads@))),
    {
        match &self.phase {
            Phase::AwaitingThreads => {
                let text = render_listing(threads, LIST_LIMIT, "\r\n");
                self.prompt(text.as_str())
            },
            _ => self.close(),
        }
    }

    /// Performs the transition on the backend's failure to return the recent threads.
    pub fn on_threads_failed(&mut self) -> (r: Reply)
        ensures
            (final(self)@, r@) == step(old(self)@, Input::ThreadsFailed),
    {
        match &self.phase {
            Phase::AwaitingThreads => self.prompt("Error loading threads\r\n"),
            _ => self.close(),
        }
    }

    /// Performs the transition on the outcome of a call that stores a thread or a comment.
    pub fn on_outcome(&mut self, stored: bool) -> (r: Reply)
        ensures
            (final(self)@, r@) == step(old(self)@, Input::Outcome(stored)),
    {
        match &self.phase {
            Phase::AwaitingOutcome { comment } => {
                if *comment {
                    if stored {
                        self.prompt("Reply posted successfully!\r\n")
                    } else {
                        self.prompt("Error posting reply\r\n")
                    }
                } else {
                    if stored {
                        self.prompt("Thread created successfully!\r\n")
                    } else {
                        self.prompt("Error creating thread\r\n")
                    }
                }
            },
            _ => self.close(),
        }
    }

    /// Performs the transition on a failure of the connection.
    pub fn on_broken(&mut self) -> (r: Reply)
        ensures
            (final(self)@, r@) == step(old(self)@, Input::Broken),
    {
        self.close()
    }

    /// Performs the transition on bytes that one read returned.
    pub fn on_received(&mut self, bytes: &[u8]) -> (r: Reply)
        ensures
            (final(self)@, r@) == step(
                old(self)@,
                if bytes@.len() == 0 {
                    Input::Closed
                } else {
                    Input::Text(lossy_text(bytes@))
                },
            ),
    {
        if bytes.len() == 0 {
            self.on_closed()
        } else {
            let text = decode_lossy(bytes);
            self.on_text(text.as_str())
        }
    }

    /// Performs one transition: the session takes in what happened and says what to do next.
    /// A well-formed session stays well formed.
    pub fn step(&mut self, event: Event) -> (r: Reply)
        ensures
            (final(self)@, r@) == step(old(self)@, input_of(event)),
            well_formed(old(self)@) ==> well_formed(final(self)@),
    {
        match event {
            Event::Received(bytes) => self.on_received(bytes.as_slice()),
            Event::Threads(threads) => self.on_threads(&threads),
            Event::ThreadsFailed => self.on_threads_failed(),
            Event::Outcome(stored) => self.on_outcome(stored),
            Event::Broken => self.on_broken(),
        }
    }
}

} // verus!
