//! What a key press does to the client: the change of state, and the call that the caller has
//! to make for it.

use crate::app::{App, AppView, CurrentFocus};
use vstd::prelude::*;
use vstd::string::*;

verus! {

/// A key of the keyboard, as far as the client tells keys apart.
#[derive(Clone, Copy, Debug, PartialEq, Eq)]
pub enum Key {
    Enter,
    Tab,
    Char(char),
    Backspace,
    Esc,
    Up,
    Down,
    Left,
    Right,
    /// Any other key.
    Other,
}

/// What the caller does after a key press on the forum screen.
#[derive(Debug)]
pub enum ForumAction {
    /// Nothing.
    Nothing,
    /// Open the thread at this position of the list.
    OpenThread(usize),
    /// Create a thread from the form, then fetch the list again.
    SubmitThread { title: String, content: String },
    /// Create a comment on the open thread.
    SubmitReply { content: String },
}

/// The mathematical value of a [`ForumAction`].
pub enum ForumActionView {
    Nothing,
    OpenThread(nat),
    SubmitThread { title: Seq<char>, content: Seq<char> },
    SubmitReply { content: Seq<char> },
}

impl View for ForumAction {
    type V = ForumActionView;

    open spec fn view(&self) -> ForumActionView {
        match self {
            ForumAction::Nothing => ForumActionView::Nothing,
            ForumAction::OpenThread(index) => ForumActionView::OpenThread(*index as nat),
            ForumAction::SubmitThread { title, content } => ForumActionView::SubmitThread {
                title: title@,
                content: content@,
            },
            ForumAction::SubmitReply { content } => ForumActionView::SubmitReply {
                content: content@,
            },
        }
    }
}

/// `text` without its last character; the empty text stays empty.
pub open spec fn without_last(text: Seq<char>) -> Seq<char> {
    if text.len() > 0 {
        text.drop_last()
    } else {
        text
    }
}

/// Whether the login form can be sent: both fields hold something.
pub open spec fn login_ready(v: AppView) -> bool {
    v.username_input.len() > 0 && v.password_input.len() > 0
}

/// The state after a key press on the login screen, and whether the form is to be sent.
///
/// Enter sends the form when it is ready. Tab moves between the two fields. A character goes
/// to the field that has the focus, and Backspace takes the last one back. Escape asks to quit.
pub open spec fn login_key(v: AppView, key: Key) -> (AppView, bool) {
    match key {
        Key::Enter => (v, login_ready(v)),
        Key::Tab => (
            AppView {
                focus: if v.focus == CurrentFocus::Username {
                    CurrentFocus::Password
                } else {
                    CurrentFocus::Username
                },
                ..v
            },
            false,
        ),
        Key::Char(c) => (
            if v.focus == CurrentFocus::Username {
                AppView { username_input: v.username_input.push(c), ..v }
            } else if v.focus == CurrentFocus::Password {
                AppView { password_input: v.password_input.push(c), ..v }
            } else {
                v
            },
            false,
        ),
        Key::Backspace => (
            if v.focus == CurrentFocus::Username {
                AppView { username_input: without_last(v.username_input), ..v }
            } else if v.focus == CurrentFocus::Password {
                AppView { password_input: without_last(v.password_input), ..v }
            } else {
                v
            },
            false,
        ),
        Key::Esc => (AppView { should_quit: true, ..v }, false),
        _ => (v, false),
    }
}

/// The state after a character that is no command was typed on the forum screen: it goes to
/// the form that is open, if one is.
pub open spec fn typed(v: AppView, c: char) -> AppView {
    if v.focus == CurrentFocus::NewThread {
        if v.new_thread_focus == CurrentFocus::Username {
            AppView { new_thread_title: v.new_thread_title.push(c), ..v }
        } else if v.new_thread_focus == CurrentFocus::ThreadList {
            AppView { new_thread_content: v.new_thread_content.push(c), ..v }
        } else {
            v
        }
    } else if v.focus == CurrentFocus::Reply {
        AppView { reply_content: v.reply_content.push(c), ..v }
    } else {
        v
    }
}

/// The state after Backspace on the forum screen: the open form loses its last character.
pub open spec fn erased(v: AppView) -> AppView {
    if v.focus == CurrentFocus::NewThread {
        if v.new_thread_focus == CurrentFocus::Username {
            AppView { new_thread_title: without_last(v.new_thread_title), ..v }
        } else if v.new_thread_focus == CurrentFocus::ThreadList {
            AppView { new_thread_content: without_last(v.new_thread_content), ..v }
        } else {
            v
        }
    } else if v.focus == CurrentFocus::Reply {
        AppView { reply_content: without_last(v.reply_content), ..v }
    } else {
        v
    }
}

/// The state after a key press on the forum screen, and what the caller has to do.
///
/// The characters `q`, `n` and `r` are commands wherever the focus is: quit, open the form for
/// a new thread, open the form for a reply. The arrows move in the list of threads and between
/// the list and the conversation. Enter opens the selected thread or sends the open form. Tab
/// moves between the two fields of the new-thread form, and Escape leaves a form.
pub open spec fn forum_key(v: AppView, key: Key) -> (AppView, ForumActionView) {
    match key {
        Key::Char(c) => (
            if c == 'q' {
                AppView { should_quit: true, ..v }
            } else if c == 'n' {
                AppView {
                    focus: CurrentFocus::NewThread,
                    new_thread_title: Seq::empty(),
                    new_thread_content: Seq::empty(),
                    new_thread_focus: CurrentFocus::Username,
                    ..v
                }
            } else if c == 'r' {
                AppView { focus: CurrentFocus::Reply, reply_content: Seq::empty(), ..v }
            } else {
                typed(v, c)
            },
            ForumActionView::Nothing,
        ),
        Key::Up => (
            if v.focus == CurrentFocus::ThreadList && v.selected_thread > 0 {
                AppView { selected_thread: (v.selected_thread - 1) as nat, ..v }
            } else {
                v
            },
            ForumActionView::Nothing,
        ),
        Key::Down => (
            if v.focus == CurrentFocus::ThreadList && v.selected_thread + 1 < v.threads.len() {
                AppView { selected_thread: v.selected_thread + 1, ..v }
            } else {
                v
            },
            ForumActionView::Nothing,
        ),
        Key::Left => (AppView { focus: CurrentFocus::ThreadList, ..v }, ForumActionView::Nothing),
        Key::Right => (
            if v.threads.len() > 0 {
                AppView { focus: CurrentFocus::Conversation, ..v }
            } else {
                v
            },
            ForumActionView::Nothing,
        ),
        Key::Enter => (
            v,
            if v.focus == CurrentFocus::ThreadList {
                ForumActionView::OpenThread(v.selected_thread)
            } else if v.focus == CurrentFocus::NewThread {
                ForumActionView::SubmitThread {
                    title: v.new_thread_title,
                    content: v.new_thread_content,
                }
            } else if v.focus == CurrentFocus::Reply {
                ForumActionView::SubmitReply { content: v.reply_content }
            } else {
                ForumActionView::Nothing
            },
        ),
        Key::Tab => (
            if v.focus == CurrentFocus::NewThread {
                AppView {
                    new_thread_focus: if v.new_thread_focus == CurrentFocus::Username {
                        CurrentFocus::ThreadList
                    } else {
                        CurrentFocus::Username
                    },
                    ..v
                }
            } else {
                v
            },
            ForumActionView::Nothing,
        ),
        Key::Esc => (
            if v.focus == CurrentFocus::NewThread || v.focus == CurrentFocus::Reply {
                AppView { focus: CurrentFocus::ThreadList, ..v }
            } else {
                v
            },
            ForumActionView::Nothing,
        ),
        Key::Backspace => (erased(v), ForumActionView::Nothing),
        Key::Other => (v, ForumActionView::Nothing),
    }
}

/// The selected position is in the list of threads; in an empty list it is the first.
pub open spec fn selection_in_list(v: AppView) -> bool {
    v.selected_thread < v.threads.len() || (v.threads.len() == 0 && v.selected_thread == 0)
}

/// No key moves the selection out of the list of threads.
pub proof fn lemma_selection_stays_in_list(v: AppView, key: Key)
    requires
        selection_in_list(v),
    ensures
        selection_in_list(login_key(v, key).0),
        selection_in_list(forum_key(v, key).0),
{
}

impl App {
    /// Whether the login form can be sent.
    pub fn login_ready(&self) -> (ready: bool)
        ensures
            ready == login_ready(self@),
    {
        self.username_input.as_str().unicode_len() > 0 && self.password_input.as_str().unicode_len()
            > 0
    }

    /// Takes a key press on the login screen. The result says whether the form is to be sent.
    pub fn on_login_key(&mut self, key: Key) -> (submit: bool)
        ensures
            (final(self)@, submit) == login_key(old(self)@, key),
    {
        match key {
            Key::Enter => self.login_ready(),
            Key::Tab => {
                self.focus = match self.focus {
                    CurrentFocus::Username => CurrentFocus::Password,
                    _ => CurrentFocus::Username,
                };
                false
            },
            Key::Char(c) => {
                match self.focus {
                    CurrentFocus::Username => self.username_input.push(c),
                    CurrentFocus::Password => self.password_input.push(c),
                    _ => {},
                }
                false
            },
            Key::Backspace => {
                match self.focus {
                    CurrentFocus::Username => {
                        self.username_input.pop();
                    },
                    CurrentFocus::Password => {
                        self.password_input.pop();
                    },
                    _ => {},
                }
                false
            },
            Key::Esc => {
                self.should_quit = true;
                false
            },
            _ => false,
        }
    }

    fn type_char(&mut self, c: char)
        ensures
            final(self)@ == typed(old(self)@, c),
    {
        match self.focus {
            CurrentFocus::NewThread => match self.new_thread_focus {
                CurrentFocus::Username => self.new_thread_title.push(c),
                CurrentFocus::ThreadList => self.new_thread_content.push(c),
                _ => {},
            },
            CurrentFocus::Reply => self.reply_content.push(c),
            _ => {},
        }
    }

    fn erase_char(&mut self)
        ensures
            final(self)@ == erased(old(self)@),
    {
        match self.focus {
            CurrentFocus::NewThread => match self.new_thread_focus {
                CurrentFocus::Username => {
                    self.new_thread_title.pop();
                },
                CurrentFocus::ThreadList => {
                    self.new_thread_content.pop();
                },
                _ => {},
            },
            CurrentFocus::Reply => {
                self.reply_content.pop();
            },
            _ => {},
        }
    }

    /// Takes a key press on the forum screen. The result says what the caller has to do.
    pub fn on_forum_key(&mut self, key: Key) -> (action: ForumAction)
        ensures
            (final(self)@, action@) == forum_key(old(self)@, key),
    {
        match key {
            Key::Char(c) => {
                if c == 'q' {
                    self.should_quit = true;
                } else if c == 'n' {
                    self.focus = CurrentFocus::NewThread;
                    self.new_thread_title.clear();
                    self.new_thread_content.clear();
                    self.new_thread_focus = CurrentFocus::Username;
                } else if c == 'r' {
                    self.focus = CurrentFocus::Reply;
                    self.reply_content.clear();
                } else {
                    self.type_char(c);
                }
                ForumAction::Nothing
            },
            Key::Up => {
                if self.focus == CurrentFocus::ThreadList && self.selected_thread > 0 {
                    self.selected_thread -= 1;
                }
                ForumAction::Nothing
            },
            Key::Down => {
                let count = self.threads.len();
                if self.focus == CurrentFocus::ThreadList && count > 0 && self.selected_thread
                    < count - 1 {
                    self.selected_thread += 1;
                }
                ForumAction::Nothing
            },
            Key::Left => {
                self.focus = CurrentFocus::ThreadList;
                ForumAction::Nothing
            },
            Key::Right => {
                if self.threads.len() > 0 {
                    self.focus = CurrentFocus::Conversation;
                }
                ForumAction::Nothing
            },
            Key::Enter => match self.focus {
                CurrentFocus::ThreadList => ForumAction::OpenThread(self.selected_thread),
                CurrentFocus::NewThread => ForumAction::SubmitThread {
                    title: self.new_thread_title.clone(),
                    content: self.new_thread_content.clone(),
                },
                CurrentFocus::Reply => ForumAction::SubmitReply {
                    content: self.reply_content.clone(),
                },
                _ => ForumAction::Nothing,
            },
            Key::Tab => {
                if self.focus == CurrentFocus::NewThread {
                    self.new_thread_focus = match self.new_thread_focus {
                        CurrentFocus::Username => CurrentFocus::ThreadList,
                        _ => CurrentFocus::Username,
                    };
                }
                ForumAction::Nothing
            },
            Key::Esc => {
                if self.focus == CurrentFocus::NewThread || self.focus == CurrentFocus::Reply {
                    self.focus = CurrentFocus::ThreadList;
                }
                ForumAction::Nothing
            },
            Key::Backspace => {
                self.erase_char();
                ForumAction::Nothing
            },
            Key::Other => ForumAction::Nothing,
        }
    }
}

} // verus!
