//! The state of one interactive session and its transitions.
//!
//! A session is driven from outside: the driver performs what a [`Reply`] asks for (send text,
//! read from the connection, call the backend, close) and hands the outcome back as an
//! [`Event`]. The session itself performs no input or output.

use crate::text::views_of;
use vstd::prelude::*;

verus! {

/// The most bytes read for the handshake payload.
pub const HANDSHAKE_LIMIT: usize = 1024;

/// The most bytes read for a command line or a line of captured text.
pub const LINE_LIMIT: usize = 256;

/// The most bytes read for a user name, a password or a thread identifier.
pub const FIELD_LIMIT: usize = 64;

/// The number of threads asked of the backend and shown by `list`.
pub const LIST_LIMIT: usize = 10;

/// Which handshake payloads are let in.
#[derive(Clone, Copy, Debug, PartialEq, Eq, Structural)]
pub enum HandshakePolicy {
    /// Any payload that is not blank.
    AnyText,
    /// Only a payload that holds `arch` or `linux`.
    Keyword,
}

/// What the text collected in capture mode is for.
#[derive(Debug)]
pub enum Target {
    /// A new thread with the given title.
    Thread { title: String },
    /// A comment on the thread with the given identifier.
    Comment { thread_id: String },
}

/// Where a session stands in the protocol.
#[derive(Debug)]
pub enum Phase {
    /// The banner is out; the handshake payload is awaited.
    Greeting,
    /// A command line is awaited.
    AwaitingCommand,
    /// `login` was entered; the user name is awaited.
    AwaitingUsername,
    /// The user name is in; the password is awaited.
    AwaitingPassword { username: String },
    /// `reply` was entered; the thread identifier is awaited.
    AwaitingThreadId,
    /// Lines of text are collected until the sentinel line.
    Capture { target: Target },
    /// The backend was asked for the recent threads.
    AwaitingThreads,
    /// The backend was asked to store the captured text.
    AwaitingOutcome { comment: bool },
    /// The session is over.
    Terminated,
}

/// A call that the driver makes on the backend for the session.
#[derive(Debug)]
pub enum Request {
    /// The most recent threads, at most `limit` of them.
    ListThreads { limit: usize },
    /// Store a new thread.
    CreateThread { title: String, content: String, author: String },
    /// Store a new comment.
    CreateComment { thread_id: String, content: String, author: String },
}

/// What the driver does after it has sent a reply's output.
#[derive(Debug)]
pub enum Next {
    /// Send `prompt`, then read once, at most `limit` bytes.
    Read { prompt: String, limit: usize },
    /// Make the call and hand its result back.
    Call(Request),
    /// Close the connection.
    Close,
}

/// The session's answer to one event.
#[derive(Debug)]
pub struct Reply {
    /// Text to send to the peer.
    pub output: String,
    /// What to do once it is sent.
    pub next: Next,
}

/// What happened outside the session.
#[derive(Debug)]
pub enum Event {
    /// One read returned these bytes; none when the peer has closed the connection.
    Received(Vec<u8>),
    /// The backend returned the recent threads as `(title, author)` pairs.
    Threads(Vec<(String, String)>),
    /// The backend could not return the recent threads.
    ThreadsFailed,
    /// The backend stored the text, or failed to.
    Outcome(bool),
    /// Reading from or writing to the connection failed.
    Broken,
}

/// The state of one session.
#[derive(Debug)]
pub struct Session {
    /// The handshake rule of this session.
    pub policy: HandshakePolicy,
    /// Whether the handshake was passed.
    pub authenticated: bool,
    /// The user bound to the session by `login`.
    pub current_user: Option<String>,
    /// Where the session stands.
    pub phase: Phase,
    /// The lines captured so far.
    pub pending: Vec<String>,
}

/// The mathematical value of a [`Target`].
pub enum TargetView {
    Thread { title: Seq<char> },
    Comment { thread_id: Seq<char> },
}

/// The mathematical value of a [`Phase`].
pub enum PhaseView {
    Greeting,
    AwaitingCommand,
    AwaitingUsername,
    AwaitingPassword { username: Seq<char> },
    AwaitingThreadId,
    Capture { target: TargetView },
    AwaitingThreads,
    AwaitingOutcome { comment: bool },
    Terminated,
}

/// The mathematical value of a [`Request`].
pub enum RequestView {
    ListThreads { limit: nat },
    CreateThread { title: Seq<char>, content: Seq<char>, author: Seq<char> },
    CreateComment { thread_id: Seq<char>, content: Seq<char>, author: Seq<char> },
}

/// The mathematical value of a [`Next`].
pub enum NextView {
    Read { prompt: Seq<char>, limit: nat },
    Call(RequestView),
    Close,
}

/// The mathematical value of a [`Reply`].
pub struct ReplyView {
    pub output: Seq<char>,
    pub next: NextView,
}

/// What happened outside the session, with a read's bytes already decoded.
pub enum Input {
    /// A read returned this text.
    Text(Seq<char>),
    /// A read returned nothing: the peer has closed the connection.
    Closed,
    /// The backend returned these titles, in its order.
    Threads(Seq<Seq<char>>),
    /// The backend could not return the recent threads.
    ThreadsFailed,
    /// The backend stored the text, or failed to.
    Outcome(bool),
    /// Reading from or writing to the connection failed.
    Broken,
}

/// The mathematical value of a [`Session`].
pub struct SessionView {
    pub policy: HandshakePolicy,
    pub authenticated: bool,
    pub current_user: Option<Seq<char>>,
    pub phase: PhaseView,
    pub pending: Seq<Seq<char>>,
}

impl View for Target {
    type V = TargetView;

    open spec fn view(&self) -> TargetView {
        match self {
            Target::Thread { title } => TargetView::Thread { title: title@ },
            Target::Comment { thread_id } => TargetView::Comment { thread_id: thread_id@ },
        }
    }
}

impl View for Phase {
    type V = PhaseView;

    open spec fn view(&self) -> PhaseView {
        match self {
            Phase::Greeting => PhaseView::Greeting,
            Phase::AwaitingCommand => PhaseView::AwaitingCommand,
            Phase::AwaitingUsername => PhaseView::AwaitingUsername,
            Phase::AwaitingPassword { username } => PhaseView::AwaitingPassword {
                username: username@,
            },
            Phase::AwaitingThreadId => PhaseView::AwaitingThreadId,
            Phase::Capture { target } => PhaseView::Capture { target: target@ },
            Phase::AwaitingThreads => PhaseView::AwaitingThreads,
            Phase::AwaitingOutcome { comment } => PhaseView::AwaitingOutcome { comment: *comment },
            Phase::Terminated => PhaseView::Terminated,
        }
    }
}

impl View for Request {
    type V = RequestView;

    open spec fn view(&self) -> RequestView {
        match self {
            Request::ListThreads { limit } => RequestView::ListThreads { limit: *limit as nat },
            Request::CreateThread { title, content, author } => RequestView::CreateThread {
                title: title@,
                content: content@,
                author: author@,
            },
            Request::CreateComment { thread_id, content, author } => RequestView::CreateComment {
                thread_id: thread_id@,
                content: content@,
                author: author@,
            },
        }
    }
}

impl View for Next {
    type V = NextView;

    open spec fn view(&self) -> NextView {
        match self {
            Next::Read { prompt, limit } => NextView::Read {
                prompt: prompt@,
                limit: *limit as nat,
            },
            Next::Call(request) => NextView::Call(request@),
            Next::Close => NextView::Close,
        }
    }
}

impl View for Reply {
    type V = ReplyView;

    open spec fn view(&self) -> ReplyView {
        ReplyView { output: self.output@, next: self.next@ }
    }
}

/// The mathematical value of the user bound to a session.
pub open spec fn user_view(user: Option<String>) -> Option<Seq<char>> {
    match user {
        Some(name) => Some(name@),
        None => None,
    }
}

impl View for Session {
    type V = SessionView;

    open spec fn view(&self) -> SessionView {
        SessionView {
            policy: self.policy,
            authenticated: self.authenticated,
            current_user: user_view(self.current_user),
            phase: self.phase@,
            pending: views_of(self.pending@),
        }
    }
}

} // verus!
