//! The session protocol as a transition function over mathematical values.

use crate::command::{command_of, CommandView};
use crate::listing::listing;
use crate::session::{
    HandshakePolicy, Input, NextView, PhaseView, ReplyView, RequestView, SessionView, TargetView,
    FIELD_LIMIT, HANDSHAKE_LIMIT, LINE_LIMIT, LIST_LIMIT,
};
use crate::text::{has_substring, joined, trimmed, without_line_end};
use vstd::prelude::*;

verus! {

/// The banner and the handshake request, sent when a connection is accepted.
pub open spec fn banner_text() -> Seq<char> {
    "Welcome to Arch Forum SSH Server\r\nArch Linux verification required...\r\n"@
}

/// Sent when the handshake is passed.
pub open spec fn welcome_text() -> Seq<char> {
    "Arch Linux verified! Welcome.\r\n\r\n=== ARCH FORUM ===\r\nCommands: login, list, post, reply, help, quit\r\n"@
}

/// Sent when the handshake is failed.
pub open spec fn denied_text() -> Seq<char> {
    "Access denied: Arch Linux required\r\n"@
}

/// The prompt for a command.
pub open spec fn command_prompt() -> Seq<char> {
    "forum> "@
}

/// The prompt for a line of captured text.
pub open spec fn capture_prompt() -> Seq<char> {
    "> "@
}

/// The header of the list of threads.
pub open spec fn list_header() -> Seq<char> {
    "\r\nRecent threads:\r\n"@
}

/// The command summary, for a session with or without a bound user.
pub open spec fn help_text(logged_in: bool) -> Seq<char> {
    if logged_in {
        "\r\nCommands:\r\n  list  - Show recent threads\r\n  post  - Create new thread\r\n  reply - Reply to thread\r\n  help  - Show this help\r\n  quit  - Exit forum\r\n"@
    } else {
        "\r\nCommands:\r\n  list  - Show recent threads (read-only)\r\n  login - Login to post\r\n  help  - Show this help\r\n  quit  - Exit forum\r\n"@
    }
}

/// The report on a backend call that stored a thread or a comment.
pub open spec fn outcome_text(comment: bool, stored: bool) -> Seq<char> {
    if comment {
        if stored {
            "Reply posted successfully!\r\n"@
        } else {
            "Error posting reply\r\n"@
        }
    } else {
        if stored {
            "Thread created successfully!\r\n"@
        } else {
            "Error creating thread\r\n"@
        }
    }
}

/// The hint for `post` without a bound user.
pub open spec fn login_to_post_hint() -> Seq<char> {
    "Please login to post. Type 'login'.\r\n"@
}

/// The hint for `reply` without a bound user.
pub open spec fn login_to_reply_hint() -> Seq<char> {
    "Please login to reply. Type 'login'.\r\n"@
}

/// The line that ends capture mode.
pub open spec fn sentinel() -> Seq<char> {
    "."@
}

/// Whether the handshake payload is let in under `policy`.
pub open spec fn accepts(policy: HandshakePolicy, payload: Seq<char>) -> bool {
    match policy {
        HandshakePolicy::AnyText => has_substring(payload, "arch"@) || has_substring(
            payload,
            "linux"@,
        ) || trimmed(payload).len() > 0,
        HandshakePolicy::Keyword => has_substring(payload, "arch"@) || has_substring(
            payload,
            "linux"@,
        ),
    }
}

/// A fresh session: the banner is out and the handshake payload is awaited.
pub open spec fn initial(policy: HandshakePolicy) -> SessionView {
    SessionView {
        policy,
        authenticated: false,
        current_user: None,
        phase: PhaseView::Greeting,
        pending: Seq::empty(),
    }
}

/// The reply that opens a session: the banner, then the read of the handshake payload.
pub open spec fn opening() -> ReplyView {
    ReplyView {
        output: banner_text(),
        next: NextView::Read { prompt: Seq::empty(), limit: HANDSHAKE_LIMIT as nat },
    }
}

/// The invariant of a session.
///
/// Text is captured, a thread identifier awaited or a store call under way only with a bound
/// user; a login is under way only without one; lines are pending only in capture mode; and
/// nothing but the greeting and the end is open to a session that has not passed the handshake.
pub open spec fn well_formed(s: SessionView) -> bool {
    &&& (s.phase is Capture || s.phase is AwaitingThreadId || s.phase is AwaitingOutcome)
        ==> s.current_user is Some
    &&& (s.phase is AwaitingUsername || s.phase is AwaitingPassword) ==> s.current_user is None
    &&& !(s.phase is Capture) ==> s.pending.len() == 0
    &&& s.phase is Greeting ==> !s.authenticated
    &&& !(s.phase is Greeting || s.phase is Terminated) ==> s.authenticated
    &&& s.current_user is Some ==> s.authenticated
}

/// The session ends without a word: nothing is sent and the connection is closed.
pub open spec fn closing(s: SessionView) -> (SessionView, ReplyView) {
    (
        SessionView { phase: PhaseView::Terminated, pending: Seq::empty(), ..s },
        ReplyView { output: Seq::empty(), next: NextView::Close },
    )
}

/// The session sends `output` and goes back to awaiting a command.
pub open spec fn prompting(s: SessionView, output: Seq<char>) -> (SessionView, ReplyView) {
    (
        SessionView { phase: PhaseView::AwaitingCommand, pending: Seq::empty(), ..s },
        ReplyView {
            output,
            next: NextView::Read { prompt: command_prompt(), limit: LINE_LIMIT as nat },
        },
    )
}

/// The session sends `output` and asks for one more item with `prompt`.
pub open spec fn asking(
    s: SessionView,
    phase: PhaseView,
    output: Seq<char>,
    prompt: Seq<char>,
    limit: nat,
) -> (SessionView, ReplyView) {
    (SessionView { phase, ..s }, ReplyView { output, next: NextView::Read { prompt, limit } })
}

/// The handshake is failed: the refusal is sent and the connection closed.
pub open spec fn rejecting(s: SessionView) -> (SessionView, ReplyView) {
    (
        SessionView { phase: PhaseView::Terminated, pending: Seq::empty(), ..s },
        ReplyView { output: denied_text(), next: NextView::Close },
    )
}

/// The step on a handshake payload.
pub open spec fn on_handshake(s: SessionView, payload: Seq<char>) -> (SessionView, ReplyView) {
    if accepts(s.policy, payload) {
        prompting(SessionView { authenticated: true, ..s }, welcome_text())
    } else {
        rejecting(s)
    }
}

/// The step on a command.
pub open spec fn on_command(s: SessionView, command: CommandView) -> (SessionView, ReplyView) {
    match command {
        CommandView::List => (
            SessionView { phase: PhaseView::AwaitingThreads, ..s },
            ReplyView {
                output: list_header(),
                next: NextView::Call(RequestView::ListThreads { limit: LIST_LIMIT as nat }),
            },
        ),
        CommandView::Login => if s.current_user is Some {
            prompting(s, "Already logged in.\r\n"@)
        } else {
            asking(s, PhaseView::AwaitingUsername, Seq::empty(), "Username: "@, FIELD_LIMIT as nat)
        },
        CommandView::Help => prompting(s, help_text(s.current_user is Some)),
        CommandView::Post(title) => if s.current_user is Some {
            asking(
                SessionView { pending: Seq::empty(), ..s },
                PhaseView::Capture { target: TargetView::Thread { title } },
                "Enter thread content (end with '.' on new line):\r\n"@,
                capture_prompt(),
                LINE_LIMIT as nat,
            )
        } else {
            prompting(s, login_to_post_hint())
        },
        CommandView::Reply => if s.current_user is Some {
            asking(s, PhaseView::AwaitingThreadId, Seq::empty(), "Reply to thread ID: "@, FIELD_LIMIT as nat)
        } else {
            prompting(s, login_to_reply_hint())
        },
        CommandView::Quit => (
            SessionView { phase: PhaseView::Terminated, pending: Seq::empty(), ..s },
            ReplyView { output: "Goodbye!\r\n"@, next: NextView::Close },
        ),
        CommandView::Unknown(_) => prompting(s, "Unknown command. Type 'help'.\r\n"@),
    }
}

/// The backend call that stores `content` for `target` in the name of `author`.
pub open spec fn store_request(target: TargetView, content: Seq<char>, author: Seq<char>)
    -> RequestView {
    match target {
        TargetView::Thread { title } => RequestView::CreateThread { title, content, author },
        TargetView::Comment { thread_id } => RequestView::CreateComment {
            thread_id,
            content,
            author,
        },
    }
}

/// The step on a line in capture mode: the text of one read, without its line end.
///
/// A line that is exactly the sentinel ends the capture: the lines so far, joined by line
/// feeds, go to the backend. Any other line, the empty one and one with blanks around a dot
/// too, is appended as it is.
pub open spec fn on_captured(s: SessionView, target: TargetView, line: Seq<char>) -> (
    SessionView,
    ReplyView,
) {
    if line == sentinel() {
        match s.current_user {
            Some(author) => (
                SessionView {
                    phase: PhaseView::AwaitingOutcome { comment: target is Comment },
                    pending: Seq::empty(),
                    ..s
                },
                ReplyView {
                    output: Seq::empty(),
                    next: NextView::Call(store_request(target, joined(s.pending, "\n"@), author)),
                },
            ),
            None => closing(s),
        }
    } else {
        (
            SessionView { pending: s.pending.push(line), ..s },
            ReplyView {
                output: Seq::empty(),
                next: NextView::Read { prompt: capture_prompt(), limit: LINE_LIMIT as nat },
            },
        )
    }
}

/// The step on the text of one read.
///
/// A command, a user name and a thread identifier are trimmed. In capture mode only the line
/// end is taken off.
pub open spec fn on_text(s: SessionView, payload: Seq<char>) -> (SessionView, ReplyView) {
    match s.phase {
        PhaseView::Greeting => on_handshake(s, payload),
        PhaseView::AwaitingCommand => on_command(s, command_of(trimmed(payload))),
        PhaseView::AwaitingUsername => asking(
            s,
            PhaseView::AwaitingPassword { username: trimmed(payload) },
            Seq::empty(),
            "Password: "@,
            FIELD_LIMIT as nat,
        ),
        PhaseView::AwaitingPassword { username } => prompting(
            SessionView { current_user: Some(username), ..s },
            "Login successful!\r\n"@,
        ),
        PhaseView::AwaitingThreadId => asking(
            SessionView { pending: Seq::empty(), ..s },
            PhaseView::Capture { target: TargetView::Comment { thread_id: trimmed(payload) } },
            "Enter reply (end with '.' on new line):\r\n"@,
            capture_prompt(),
            LINE_LIMIT as nat,
        ),
        PhaseView::Capture { target } => on_captured(s, target, without_line_end(payload)),
        PhaseView::AwaitingThreads => closing(s),
        PhaseView::AwaitingOutcome { .. } => closing(s),
        PhaseView::Terminated => closing(s),
    }
}

/// The step of a session on one input: the state after it and the reply.
///
/// An input that the phase does not await ends the session.
pub open spec fn step(s: SessionView, input: Input) -> (SessionView, ReplyView) {
    match input {
        Input::Text(payload) => on_text(s, payload),
        Input::Closed => if s.phase is Greeting {
            rejecting(s)
        } else {
            closing(s)
        },
        Input::Threads(titles) => if s.phase is AwaitingThreads {
            prompting(s, listing(titles, LIST_LIMIT as nat, "\r\n"@))
        } else {
            closing(s)
        },
        Input::ThreadsFailed => if s.phase is AwaitingThreads {
            prompting(s, "Error loading threads\r\n"@)
        } else {
            closing(s)
        },
        Input::Outcome(stored) => match s.phase {
            PhaseView::AwaitingOutcome { comment } => prompting(s, outcome_text(comment, stored)),
            _ => closing(s),
        },
        Input::Broken => closing(s),
    }
}

} // verus!
