//! The rules of the HTTP service on accounts, and on where its database is.
//!
//! The service looks accounts up and stores them elsewhere; the functions here decide what a
//! request is answered with.

use crate::text::{contains, has_substring, text_eq};
use vstd::prelude::*;
use vstd::string::*;

verus! {

/// Why a request on an account is refused.
#[derive(Clone, Copy, Debug, PartialEq, Eq, Structural)]
pub enum Refusal {
    /// The user name or the password is empty.
    MissingCredentials,
    /// The user name is in use.
    UsernameTaken,
    /// No user has the name.
    UserNotFound,
    /// The password is not the user's.
    InvalidPassword,
}

/// The HTTP status that goes with a refusal: 400 for a request that cannot be served as it
/// is, 401 for a failed login.
pub open spec fn refusal_status(refusal: Refusal) -> u16 {
    match refusal {
        Refusal::MissingCredentials => 400,
        Refusal::UsernameTaken => 400,
        Refusal::UserNotFound => 401,
        Refusal::InvalidPassword => 401,
    }
}

/// The error text that goes with a refusal.
pub open spec fn refusal_text(refusal: Refusal) -> Seq<char> {
    match refusal {
        Refusal::MissingCredentials => "Username and password required"@,
        Refusal::UsernameTaken => "Username already taken"@,
        Refusal::UserNotFound => "User not found"@,
        Refusal::InvalidPassword => "Invalid password"@,
    }
}

impl Refusal {
    /// The HTTP status of the answer.
    pub fn status(&self) -> (code: u16)
        ensures
            code == refusal_status(*self),
    {
        match self {
            Refusal::MissingCredentials => 400,
            Refusal::UsernameTaken => 400,
            Refusal::UserNotFound => 401,
            Refusal::InvalidPassword => 401,
        }
    }

    /// The error text of the answer.
    pub fn message(&self) -> (text: &'static str)
        ensures
            text@ == refusal_text(*self),
    {
        match self {
            Refusal::MissingCredentials => "Username and password required",
            Refusal::UsernameTaken => "Username already taken",
            Refusal::UserNotFound => "User not found",
            Refusal::InvalidPassword => "Invalid password",
        }
    }
}

/// The hash under which the service stores a password: the same fixed text for every password.
pub open spec fn stored_hash() -> Seq<char> {
    "temp_hash"@
}

/// The hash under which the service stores a password, whatever the password is.
pub fn password_hash(_password: &str) -> (hash: String)
    ensures
        hash@ == stored_hash(),
{
    String::from_str("temp_hash")
}

/// Checks that a request names a user and a password.
pub fn check_credentials(username: &str, password: &str) -> (r: Result<(), Refusal>)
    ensures
        (username@.len() == 0 || password@.len() == 0) <==> r == Err::<(), Refusal>(
            Refusal::MissingCredentials,
        ),
        (username@.len() > 0 && password@.len() > 0) <==> r is Ok,
{
    if username.unicode_len() == 0 || password.unicode_len() == 0 {
        Err(Refusal::MissingCredentials)
    } else {
        Ok(())
    }
}

/// The verdict on a login, by what is stored for the user.
pub open spec fn login_verdict(stored: Option<Seq<char>>) -> Result<(), Refusal> {
    match stored {
        None => Err(Refusal::UserNotFound),
        Some(hash) => if hash == stored_hash() {
            Ok(())
        } else {
            Err(Refusal::InvalidPassword)
        },
    }
}

/// The hash stored for a user, if there is such a user.
pub open spec fn found_hash(stored: Option<&str>) -> Option<Seq<char>> {
    match stored {
        Some(hash) => Some(hash@),
        None => None,
    }
}

/// Decides a login: `stored` is the hash stored for the user, if there is such a user.
pub fn check_login(password: &str, stored: Option<&str>) -> (r: Result<(), Refusal>)
    ensures
        r == login_verdict(found_hash(stored)),
{
    match stored {
        None => Err(Refusal::UserNotFound),
        Some(hash) => {
            let expected = password_hash(password);
            if text_eq(hash, expected.as_str()) {
                Ok(())
            } else {
                Err(Refusal::InvalidPassword)
            }
        },
    }
}

/// Decides a registration: `taken` says whether the name is in use.
pub fn check_registration(taken: bool) -> (r: Result<(), Refusal>)
    ensures
        taken <==> r == Err::<(), Refusal>(Refusal::UsernameTaken),
        !taken <==> r is Ok,
{
    if taken {
        Err(Refusal::UsernameTaken)
    } else {
        Ok(())
    }
}

/// The address of the database with encryption asked for, unless the address speaks of it.
pub open spec fn secured_url(url: Seq<char>) -> Seq<char> {
    if has_substring(url, "sslmode"@) {
        url
    } else {
        url + "?sslmode=require"@
    }
}

/// Asks for encryption in the address of the database, unless the address speaks of it.
pub fn with_ssl_mode(url: String) -> (secured: String)
    ensures
        secured@ == secured_url(url@),
{
    if contains(url.as_str(), "sslmode") {
        url
    } else {
        let mut secured = url;
        secured.append("?sslmode=require");
        secured
    }
}

/// Whether the arguments of the program ask for the database to be seeded: the first argument
/// after the program's name is `seed`.
pub open spec fn asks_for_seed(args: Seq<String>) -> bool {
    args.len() > 1 && args[1]@ == "seed"@
}

/// Decides whether the arguments of the program ask for the database to be seeded.
pub fn is_seed_run(args: &Vec<String>) -> (r: bool)
    ensures
        r == asks_for_seed(args@),
{
    args.len() > 1 && text_eq(args[1].as_str(), "seed")
}

} // verus!
