//! The state of the terminal client and what a key press does to it.
//!
//! The client's screen and its calls on the service are made elsewhere: the methods here say
//! how the state changes and which call, if any, the caller has to make.

use crate::api::{text_view, Category, Comment, NewComment, NewThread, Thread, User};
use crate::json::{credentials_from, credentials_in, pair_view, parsed_json};
use vstd::prelude::*;
use vstd::string::*;

verus! {

/// The seconds after which the list of threads is fetched again.
pub const REFRESH_SECONDS: u64 = 10;

/// Which screen the client shows.
#[derive(Clone, Copy, Debug, PartialEq, Eq, Structural)]
pub enum AppState {
    Login,
    Forum,
}

/// What the keyboard acts on.
#[derive(Clone, Copy, Debug, PartialEq, Eq, Structural)]
pub enum CurrentFocus {
    Username,
    Password,
    ThreadList,
    Categories,
    Conversation,
    NewThread,
    Reply,
    ThreadImage,
    ReplyImage,
}

/// A point in time as `std::time::Instant` has it. Nothing is known of its value.
#[verifier::external_type_specification]
#[verifier::external_body]
pub struct ExInstant(std::time::Instant);

/// The state of the client.
pub struct App {
    pub state: AppState,
    pub focus: CurrentFocus,
    pub should_quit: bool,
    /// The user name being entered on the login screen.
    pub username_input: String,
    /// The password being entered on the login screen.
    pub password_input: String,
    pub current_user: Option<User>,
    pub threads: Vec<Thread>,
    pub categories: Vec<Category>,
    pub selected_thread: usize,
    pub selected_category: usize,
    pub selected_comment: usize,
    pub current_thread_id: Option<String>,
    /// The comments of the open thread.
    pub comments: Vec<Comment>,
    pub new_thread_title: String,
    pub new_thread_content: String,
    pub new_thread_image_path: String,
    pub reply_content: String,
    pub reply_image_path: String,
    /// The field of the new-thread form that has the focus: `Username` stands for the title,
    /// `ThreadList` for the content.
    pub new_thread_focus: CurrentFocus,
    /// When the list of threads was last fetched.
    pub last_refresh: std::time::Instant,
}

/// The mathematical value of an [`App`].
pub struct AppView {
    pub state: AppState,
    pub focus: CurrentFocus,
    pub should_quit: bool,
    pub username_input: Seq<char>,
    pub password_input: Seq<char>,
    pub current_user: Option<User>,
    pub threads: Seq<Thread>,
    pub categories: Seq<Category>,
    pub selected_thread: nat,
    pub selected_category: nat,
    pub selected_comment: nat,
    pub current_thread_id: Option<Seq<char>>,
    pub comments: Seq<Comment>,
    pub new_thread_title: Seq<char>,
    pub new_thread_content: Seq<char>,
    pub new_thread_image_path: Seq<char>,
    pub reply_content: Seq<char>,
    pub reply_image_path: Seq<char>,
    pub new_thread_focus: CurrentFocus,
    pub last_refresh: std::time::Instant,
}

impl View for App {
    type V = AppView;

    open spec fn view(&self) -> AppView {
        AppView {
            state: self.state,
            focus: self.focus,
            should_quit: self.should_quit,
            username_input: self.username_input@,
            password_input: self.password_input@,
            current_user: self.current_user,
            threads: self.threads@,
            categories: self.categories@,
            selected_thread: self.selected_thread as nat,
            selected_category: self.selected_category as nat,
            selected_comment: self.selected_comment as nat,
            current_thread_id: text_view(self.current_thread_id),
            comments: self.comments@,
            new_thread_title: self.new_thread_title@,
            new_thread_content: self.new_thread_content@,
            new_thread_image_path: self.new_thread_image_path@,
            reply_content: self.reply_content@,
            reply_image_path: self.reply_image_path@,
            new_thread_focus: self.new_thread_focus,
            last_refresh: self.last_refresh,
        }
    }
}

/// The client as it starts, last refreshed at `now`: on the login screen, with the focus on the
/// user name, nothing entered, nothing fetched and nobody logged in.
pub open spec fn fresh(now: std::time::Instant) -> AppView {
    AppView {
        state: AppState::Login,
        focus: CurrentFocus::Username,
        should_quit: false,
        username_input: Seq::empty(),
        password_input: Seq::empty(),
        current_user: None,
        threads: Seq::empty(),
        categories: Seq::empty(),
        selected_thread: 0,
        selected_category: 0,
        selected_comment: 0,
        current_thread_id: None,
        comments: Seq::empty(),
        new_thread_title: Seq::empty(),
        new_thread_content: Seq::empty(),
        new_thread_image_path: Seq::empty(),
        reply_content: Seq::empty(),
        reply_image_path: Seq::empty(),
        new_thread_focus: CurrentFocus::Username,
        last_refresh: now,
    }
}

/// Reads the clock with `std::time::Instant::now`. Nothing is promised of the result.
#[verifier::external_body]
fn now() -> std::time::Instant {
    std::time::Instant::now()
}

/// The whole seconds since `start`, by `std::time::Instant::elapsed`. Nothing is promised of
/// the result: it depends on the clock.
#[verifier::external_body]
fn seconds_since(start: &std::time::Instant) -> u64 {
    start.elapsed().as_secs()
}

/// Whether a refresh is due after `elapsed` seconds.
pub fn refresh_due_after(elapsed: u64) -> (due: bool)
    ensures
        due == (elapsed >= REFRESH_SECONDS),
{
    elapsed >= REFRESH_SECONDS
}

/// The client with a user name and a password put into the login form, where there are any.
pub open spec fn with_credentials(v: AppView, credentials: Option<(Seq<char>, Seq<char>)>)
    -> AppView {
    match credentials {
        Some((username, password)) => AppView {
            username_input: username,
            password_input: password,
            ..v
        },
        None => v,
    }
}

/// The position of the first thread with the identifier `id`.
pub open spec fn is_first_with_id(threads: Seq<Thread>, id: Seq<char>, i: int) -> bool {
    &&& 0 <= i < threads.len()
    &&& threads[i].id@ == id
    &&& forall|j: int| 0 <= j < i ==> (#[trigger] threads[j]).id@ != id
}

/// No thread has the identifier `id`.
pub open spec fn none_with_id(threads: Seq<Thread>, id: Seq<char>) -> bool {
    forall|j: int| 0 <= j < threads.len() ==> (#[trigger] threads[j]).id@ != id
}

impl App {
    /// The client as it starts.
    pub fn new() -> (app: App)
        ensures
            app@ == fresh(app.last_refresh),
    {
        App {
            state: AppState::Login,
            focus: CurrentFocus::Username,
            should_quit: false,
            username_input: String::new(),
            password_input: String::new(),
            current_user: None,
            threads: Vec::new(),
            categories: Vec::new(),
            selected_thread: 0,
            selected_category: 0,
            selected_comment: 0,
            current_thread_id: None,
            comments: Vec::new(),
            new_thread_title: String::new(),
            new_thread_content: String::new(),
            new_thread_image_path: String::new(),
            reply_content: String::new(),
            reply_image_path: String::new(),
            new_thread_focus: CurrentFocus::Username,
            last_refresh: now(),
        }
    }

    /// The open thread: the first of the fetched threads that has the identifier of the open
    /// thread. There is none while no thread is open, and none when no fetched thread has that
    /// identifier.
    pub fn get_current_thread(&self) -> (found: Option<&Thread>)
        ensures
            self.current_thread_id is None ==> found is None,
            self.current_thread_id is Some ==> match found {
                Some(thread) => exists|i: int|
                    is_first_with_id(self.threads@, self.current_thread_id->0@, i) && *thread
                        == self.threads@[i],
                None => none_with_id(self.threads@, self.current_thread_id->0@),
            },
    {
        match &self.current_thread_id {
            None => None,
            Some(id) => {
                let mut i: usize = 0;
                while i < self.threads.len()
                    invariant
                        i <= self.threads@.len(),
                        self.current_thread_id == Some(*id),
                        forall|j: int| 0 <= j < i ==> (#[trigger] self.threads@[j]).id@ != id@,
                    decreases self.threads@.len() - i,
                {
                    if self.threads[i].id == *id {
                        assert(is_first_with_id(self.threads@, id@, i as int));
                        return Some(&self.threads[i]);
                    }
                    i += 1;
                }
                None
            },
        }
    }

    /// Puts a user name and a password into the login form, where there are any.
    pub fn apply_credentials(&mut self, credentials: Option<(String, String)>)
        ensures
            final(self)@ == with_credentials(old(self)@, pair_view(credentials)),
    {
        match credentials {
            Some((username, password)) => {
                self.username_input = username;
                self.password_input = password;
            },
            None => {},
        }
    }

    /// Takes the user name and the password for the login form from the text of the
    /// configuration file, where it names both.
    pub fn load_config(&mut self, content: &str)
        ensures
            final(self)@ == with_credentials(old(self)@, credentials_in(parsed_json(content@))),
    {
        self.apply_credentials(credentials_from(content));
    }

    /// Whether the list of threads is to be fetched again: `REFRESH_SECONDS` or more have
    /// passed since it was last fetched.
    pub fn refresh_due(&self) -> bool {
        refresh_due_after(seconds_since(&self.last_refresh))
    }

    /// Notes that the list of threads was fetched just now.
    pub fn mark_refreshed(&mut self)
        ensures
            final(self)@ == (AppView { last_refresh: final(self).last_refresh, ..old(self)@ }),
    {
        self.refreshed_at(now());
    }

    /// Notes that the list of threads was fetched at `at`. Nothing else changes.
    pub fn refreshed_at(&mut self, at: std::time::Instant)
        ensures
            final(self)@ == (AppView { last_refresh: at, ..old(self)@ }),
    {
        self.last_refresh = at;
    }

    /// Takes in the user that the service registered: the client moves to the forum screen, with
    /// the focus on the list of threads.
    pub fn login_succeeded(&mut self, user: User)
        ensures
            final(self)@ == (AppView {
                current_user: Some(user),
                state: AppState::Forum,
                focus: CurrentFocus::ThreadList,
                ..old(self)@
            }),
    {
        self.current_user = Some(user);
        self.state = AppState::Forum;
        self.focus = CurrentFocus::ThreadList;
    }

    /// Starts to open the thread at `index` of the list: it becomes the open thread, and its
    /// identifier is returned for the caller to fetch its comments. Nothing happens when the
    /// list has no such position.
    pub fn begin_open_thread(&mut self, index: usize) -> (id: Option<String>)
        ensures
            index < old(self).threads@.len() ==> text_view(id) == Some(
                old(self).threads@[index as int].id@,
            ) && final(self)@ == (AppView { current_thread_id: text_view(id), ..old(self)@ }),
            index >= old(self).threads@.len() ==> id is None && final(self)@ == old(self)@,
    {
        if index < self.threads.len() {
            let id = self.threads[index].id.clone();
            self.current_thread_id = Some(id.clone());
            Some(id)
        } else {
            None
        }
    }

    /// Finishes opening a thread with its comments: the focus moves to the conversation, with
    /// the first comment selected.
    pub fn finish_open_thread(&mut self, comments: Vec<Comment>)
        ensures
            final(self)@ == (AppView {
                comments: comments@,
                focus: CurrentFocus::Conversation,
                selected_comment: 0,
                ..old(self)@
            }),
    {
        self.comments = comments;
        self.focus = CurrentFocus::Conversation;
        self.selected_comment = 0;
    }

    /// The path of the image to attach to the new thread, if one is set.
    pub fn thread_image_path(&self) -> (path: Option<&str>)
        ensures
            self.new_thread_image_path@.len() == 0 ==> path is None,
            self.new_thread_image_path@.len() > 0 ==> path is Some && path->0@
                == self.new_thread_image_path@,
    {
        let path = self.new_thread_image_path.as_str();
        if path.unicode_len() > 0 {
            Some(path)
        } else {
            None
        }
    }

    /// The path of the image to attach to the reply, if one is set.
    pub fn reply_image_path(&self) -> (path: Option<&str>)
        ensures
            self.reply_image_path@.len() == 0 ==> path is None,
            self.reply_image_path@.len() > 0 ==> path is Some && path->0@
                == self.reply_image_path@,
    {
        let path = self.reply_image_path.as_str();
        if path.unicode_len() > 0 {
            Some(path)
        } else {
            None
        }
    }

    /// The selected category is one of the fetched categories, unless none was fetched.
    pub open spec fn category_in_range(&self) -> bool {
        self.categories@.len() == 0 || self.selected_category < self.categories@.len()
    }

    /// Decides whether the selected category is one of the fetched categories, unless none was
    /// fetched.
    pub fn has_category_in_range(&self) -> (r: bool)
        ensures
            r == self.category_in_range(),
    {
        self.categories.len() == 0 || self.selected_category < self.categories.len()
    }

    /// The thread to create from a title, a content and an image: its author is the logged-in
    /// user and its category the selected one, if categories were fetched. Without a logged-in
    /// user there is nothing to create.
    pub fn compose_thread(&self, title: String, content: String, image_url: Option<String>) -> (new:
        Option<NewThread>)
        requires
            self.current_user is Some ==> self.category_in_range(),
        ensures
            self.current_user is None ==> new is None,
            self.current_user is Some ==> new is Some && {
                let thread = new->0;
                &&& thread.title == title
                &&& thread.content == content
                &&& thread.image_url == image_url
                &&& thread.author@ == self.current_user->0.username@
                &&& self.categories@.len() == 0 ==> thread.category_id is None
                &&& self.categories@.len() > 0 ==> text_view(thread.category_id) == Some(
                    self.categories@[self.selected_category as int].id@,
                )
            },
    {
        match &self.current_user {
            Some(user) => {
                let category_id = if self.categories.len() == 0 {
                    None
                } else {
                    Some(self.categories[self.selected_category].id.clone())
                };
                Some(
                    NewThread {
                        title,
                        author: user.username.clone(),
                        content,
                        image_url,
                        category_id,
                    },
                )
            },
            None => None,
        }
    }

    /// The comment to create on the open thread from a content and an image: its author is the
    /// logged-in user. Without a logged-in user or without an open thread there is nothing to
    /// create.
    pub fn compose_reply(&self, content: String, image_url: Option<String>) -> (new: Option<
        NewComment,
    >)
        ensures
            (self.current_user is None || self.current_thread_id is None) ==> new is None,
            (self.current_user is Some && self.current_thread_id is Some) ==> new is Some && {
                let comment = new->0;
                &&& comment.content == content
                &&& comment.image_url == image_url
                &&& comment.author@ == self.current_user->0.username@
                &&& comment.thread_id@ == self.current_thread_id->0@
            },
    {
        match (&self.current_user, &self.current_thread_id) {
            (Some(user), Some(thread_id)) => Some(
                NewComment {
                    thread_id: thread_id.clone(),
                    author: user.username.clone(),
                    content,
                    image_url,
                },
            ),
            _ => None,
        }
    }

    /// Leaves the new-thread form once the thread was sent and the list fetched again.
    pub fn thread_submitted(&mut self)
        ensures
            final(self)@ == (AppView { focus: CurrentFocus::ThreadList, ..old(self)@ }),
    {
        self.focus = CurrentFocus::ThreadList;
    }

    /// Leaves the reply form once the reply was sent.
    pub fn reply_submitted(&mut self)
        ensures
            final(self)@ == (AppView { focus: CurrentFocus::Conversation, ..old(self)@ }),
    {
        self.focus = CurrentFocus::Conversation;
    }
}

/// What the user is told when the chosen name is taken.
pub open spec fn username_taken_text(username: Seq<char>) -> Seq<char> {
    "Username '"@ + username + "' is already taken"@
}

/// What the user is told when the chosen name is taken.
pub fn username_taken_message(username: &str) -> (message: String)
    ensures
        message@ == username_taken_text(username@),
{
    let mut message = String::from_str("Username '");
    message.append(username);
    message.append("' is already taken");
    message
}

/// The share of the screen, in percent, left free on each side of a centred box that takes
/// `percent` of it.
pub open spec fn margin_percent(percent: u16) -> int {
    (100 - percent) / 2
}

/// The share of the screen left free on each side of a centred box.
pub fn side_margin(percent: u16) -> (margin: u16)
    requires
        percent <= 100,
    ensures
        margin == margin_percent(percent),
        margin + percent + margin <= 100,
{
    (100 - percent) / 2
}

/// A password as the login screen shows it: one asterisk for each character.
pub open spec fn masked(password: Seq<char>) -> Seq<char> {
    Seq::new(password.len(), |i: int| '*')
}

/// Masks a password for the screen.
pub fn mask(password: &str) -> (shown: String)
    ensures
        shown@ == masked(password@),
{
    let count = password.unicode_len();
    let mut shown = String::new();
    let mut i: usize = 0;
    while i < count
        invariant
            i <= count,
            count == password@.len(),
            shown@ == Seq::new(i as nat, |k: int| '*'),
        decreases count - i,
    {
        shown.push('*');
        i += 1;
        assert(shown@ =~= Seq::new(i as nat, |k: int| '*'));
    }
    shown
}

} // verus!
