//! The commands of the interactive forum session and how a line of input is classified.

use crate::text::{starts_with, tail_from, text_eq};
use vstd::prelude::*;
use vstd::string::*;

verus! {

/// One command of the interactive session.
#[derive(Debug)]
pub enum Command {
    /// Show the most recent threads.
    List,
    /// Bind a user name to the session.
    Login,
    /// Show the command summary.
    Help,
    /// Start a new thread with the given title.
    Post(String),
    /// Reply to a thread.
    Reply,
    /// Leave the forum.
    Quit,
    /// Anything else, with the line as it was entered.
    Unknown(String),
}

/// The mathematical value of a [`Command`].
pub enum CommandView {
    List,
    Login,
    Help,
    Post(Seq<char>),
    Reply,
    Quit,
    Unknown(Seq<char>),
}

impl View for Command {
    type V = CommandView;

    open spec fn view(&self) -> CommandView {
        match self {
            Command::List => CommandView::List,
            Command::Login => CommandView::Login,
            Command::Help => CommandView::Help,
            Command::Post(title) => CommandView::Post(title@),
            Command::Reply => CommandView::Reply,
            Command::Quit => CommandView::Quit,
            Command::Unknown(raw) => CommandView::Unknown(raw@),
        }
    }
}

/// The command that a trimmed line of input stands for.
///
/// The keywords `list`, `login`, `help`, `reply`, `quit` and `exit` must make up the whole line.
/// A line that begins with `post` and one blank carries the rest of the line as the title.
pub open spec fn command_of(line: Seq<char>) -> CommandView {
    if line == "list"@ {
        CommandView::List
    } else if line == "login"@ {
        CommandView::Login
    } else if line == "help"@ {
        CommandView::Help
    } else if "post "@.is_prefix_of(line) {
        CommandView::Post(line.subrange(5, line.len() as int))
    } else if line == "reply"@ {
        CommandView::Reply
    } else if line == "quit"@ || line == "exit"@ {
        CommandView::Quit
    } else {
        CommandView::Unknown(line)
    }
}

/// Classifies one trimmed line of input.
pub fn parse_command(line: &str) -> (c: Command)
    ensures
        c@ == command_of(line@),
{
    if text_eq(line, "list") {
        Command::List
    } else if text_eq(line, "login") {
        Command::Login
    } else if text_eq(line, "help") {
        Command::Help
    } else if starts_with(line, "post ") {
        proof {
            reveal_strlit("post ");
        }
        Command::Post(String::from_str(tail_from(line, 5)))
    } else if text_eq(line, "reply") {
        Command::Reply
    } else if text_eq(line, "quit") || text_eq(line, "exit") {
        Command::Quit
    } else {
        Command::Unknown(String::from_str(line))
    }
}

} // verus!
