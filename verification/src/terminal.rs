//! The one-line commands of the web terminal.
//!
//! The terminal takes one command per request and answers with one text. Where the answer
//! needs the backend, [`dispatch`] says which call to make, and the answer is made from the
//! call's result.

use crate::listing::{listing, render_listing, titles_of};
use crate::text::{starts_with, tail_from, text_eq};
use vstd::prelude::*;
use vstd::string::*;

verus! {

/// The number of threads that `list` shows.
pub const TERMINAL_LIST_LIMIT: usize = 5;

/// What is to be done for a command.
#[derive(Debug)]
pub enum Dispatch {
    /// Answer with this text.
    Respond(String),
    /// Fetch the recent threads and answer with [`list_response`].
    ListThreads,
    /// Store a thread and answer with [`post_response`].
    CreateThread { title: String, content: String, author: String },
}

/// The mathematical value of a [`Dispatch`].
pub enum DispatchView {
    Respond(Seq<char>),
    ListThreads,
    CreateThread { title: Seq<char>, content: Seq<char>, author: Seq<char> },
}

impl View for Dispatch {
    type V = DispatchView;

    open spec fn view(&self) -> DispatchView {
        match self {
            Dispatch::Respond(text) => DispatchView::Respond(text@),
            Dispatch::ListThreads => DispatchView::ListThreads,
            Dispatch::CreateThread { title, content, author } => DispatchView::CreateThread {
                title: title@,
                content: content@,
                author: author@,
            },
        }
    }
}

/// What is to be done for the command `cmd`, taken as it is.
///
/// `list`, `help` and `quit` must make up the whole command. A command that begins with `post`
/// and one blank stores a thread under the rest of the command as its title, with a fixed
/// content and author.
pub open spec fn dispatch_of(cmd: Seq<char>) -> DispatchView {
    if cmd == "list"@ {
        DispatchView::ListThreads
    } else if cmd == "help"@ {
        DispatchView::Respond("Commands: list, post <title>, help, quit"@)
    } else if cmd == "quit"@ {
        DispatchView::Respond("Goodbye!"@)
    } else if "post "@.is_prefix_of(cmd) {
        DispatchView::CreateThread {
            title: cmd.subrange(5, cmd.len() as int),
            content: "Posted from terminal"@,
            author: "terminal_user"@,
        }
    } else {
        DispatchView::Respond("Unknown command. Type 'help'"@)
    }
}

/// The answer to `list`: the first threads, numbered from one, one per line; or the report of
/// the failure to fetch them.
pub open spec fn list_response_text(titles: Option<Seq<Seq<char>>>) -> Seq<char> {
    match titles {
        Some(titles) => listing(titles, TERMINAL_LIST_LIMIT as nat, "\n"@),
        None => "Error loading threads"@,
    }
}

/// The answer to `post`.
pub open spec fn post_response_text(title: Seq<char>, stored: bool) -> Seq<char> {
    if stored {
        "Thread '"@ + title + "' created!"@
    } else {
        "Error creating thread"@
    }
}

/// The titles of the threads that were fetched, if they were.
pub open spec fn fetched_titles(threads: Option<&Vec<(String, String)>>) -> Option<
    Seq<Seq<char>>,
> {
    match threads {
        Some(threads) => Some(titles_of(threads@)),
        None => None,
    }
}

/// Decides what is to be done for a command.
pub fn dispatch(cmd: &str) -> (d: Dispatch)
    ensures
        d@ == dispatch_of(cmd@),
{
    if text_eq(cmd, "list") {
        Dispatch::ListThreads
    } else if text_eq(cmd, "help") {
        Dispatch::Respond(String::from_str("Commands: list, post <title>, help, quit"))
    } else if text_eq(cmd, "quit") {
        Dispatch::Respond(String::from_str("Goodbye!"))
    } else if starts_with(cmd, "post ") {
        proof {
            reveal_strlit("post ");
        }
        Dispatch::CreateThread {
            title: String::from_str(tail_from(cmd, 5)),
            content: String::from_str("Posted from terminal"),
            author: String::from_str("terminal_user"),
        }
    } else {
        Dispatch::Respond(String::from_str("Unknown command. Type 'help'"))
    }
}

/// The answer to `list`, from the threads that the backend returned, or from its failure.
pub fn list_response(threads: Option<&Vec<(String, String)>>) -> (text: String)
    ensures
        text@ == list_response_text(fetched_titles(threads)),
{
    match threads {
        Some(threads) => render_listing(threads, TERMINAL_LIST_LIMIT, "\n"),
        None => String::from_str("Error loading threads"),
    }
}

/// The answer to `post`, from whether the backend stored the thread.
pub fn post_response(title: &str, stored: bool) -> (text: String)
    ensures
        text@ == post_response_text(title@, stored),
{
    if stored {
        let mut text = String::from_str("Thread '");
        text.append(title);
        text.append("' created!");
        text
    } else {
        String::from_str("Error creating thread")
    }
}

} // verus!
