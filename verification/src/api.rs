//! The records exchanged with the forum's HTTP service, the addresses of its endpoints, and the
//! data URL under which an image travels inside a record.

use crate::text::text_eq;
use vstd::prelude::*;
use vstd::string::*;

verus! {

/// A thread as the service returns it.
#[derive(Debug, Clone)]
pub struct Thread {
    pub id: String,
    pub title: String,
    pub author: String,
    pub content: String,
    pub image_url: Option<String>,
    pub category_id: Option<String>,
    pub created_at: String,
}

/// A category as the service returns it.
#[derive(Debug, Clone)]
pub struct Category {
    pub id: String,
    pub name: String,
    pub description: Option<String>,
    pub created_at: String,
}

/// A thread to be created.
#[derive(Debug, Clone)]
pub struct NewThread {
    pub title: String,
    pub author: String,
    pub content: String,
    pub image_url: Option<String>,
    pub category_id: Option<String>,
}

/// A comment as the service returns it.
#[derive(Debug, Clone)]
pub struct Comment {
    pub id: String,
    pub thread_id: String,
    pub author: String,
    pub content: String,
    pub image_url: Option<String>,
    pub created_at: String,
}

/// A comment to be created.
#[derive(Debug, Clone)]
pub struct NewComment {
    pub thread_id: String,
    pub author: String,
    pub content: String,
    pub image_url: Option<String>,
}

/// A registered user.
#[derive(Debug, Clone)]
pub struct User {
    pub id: String,
    pub username: String,
    pub created_at: String,
}

/// The mathematical value of an optional text.
pub open spec fn text_view(text: Option<String>) -> Option<Seq<char>> {
    match text {
        Some(t) => Some(t@),
        None => None,
    }
}

/// The address of the service.
pub open spec fn base_url() -> Seq<char> {
    "https://cyber-forum.onrender.com"@
}

/// The address of the endpoint at `path`.
pub fn endpoint(path: &str) -> (url: String)
    ensures
        url@ == base_url() + path@,
{
    let mut url = String::from_str("https://cyber-forum.onrender.com");
    url.append(path);
    url
}

/// The address of the threads: their list, the creation of one, the deletion of all.
pub fn threads_url() -> (url: String)
    ensures
        url@ == base_url() + "/threads"@,
{
    endpoint("/threads")
}

/// The address of the comments of the thread `thread_id`.
pub fn thread_comments_url(thread_id: &str) -> (url: String)
    ensures
        url@ == base_url() + "/threads/"@ + thread_id@ + "/comments"@,
{
    let mut url = endpoint("/threads/");
    url.append(thread_id);
    url.append("/comments");
    url
}

/// The address at which a comment is created.
pub fn comments_url() -> (url: String)
    ensures
        url@ == base_url() + "/comments"@,
{
    endpoint("/comments")
}

/// The address of the categories.
pub fn categories_url() -> (url: String)
    ensures
        url@ == base_url() + "/categories"@,
{
    endpoint("/categories")
}

/// The address that tells whether `username` is still free.
pub fn check_username_url(username: &str) -> (url: String)
    ensures
        url@ == base_url() + "/auth/check-username/"@ + username@,
{
    let mut url = endpoint("/auth/check-username/");
    url.append(username);
    url
}

/// The address at which a user logs in.
pub fn login_url() -> (url: String)
    ensures
        url@ == base_url() + "/auth/login"@,
{
    endpoint("/auth/login")
}

/// The address at which a user registers.
pub fn register_url() -> (url: String)
    ensures
        url@ == base_url() + "/auth/register"@,
{
    endpoint("/auth/register")
}

/// The extension of the file name that ends the path `path`, if it has one.
pub uninterp spec fn path_extension(path: Seq<char>) -> Option<Seq<char>>;

/// The padded base64 text of `bytes` in the standard alphabet.
pub uninterp spec fn base64_standard(bytes: Seq<u8>) -> Seq<char>;

/// Takes the extension of a path with `std::path::Path::extension`.
///
/// The contract only gives the result its name: which part of a path is its file name, and
/// which part of that its extension, is left to the standard library.
#[verifier::external_body]
fn extension_of(path: &str) -> (ext: Option<String>)
    ensures
        text_view(ext) == path_extension(path@),
{
    let extension = std::path::Path::new(path).extension()?.to_str()?;
    Some(extension.to_owned())
}

/// Encodes bytes with `base64::Engine::encode` on the engine
/// `base64::engine::general_purpose::STANDARD`.
///
/// The contract only gives the result its name: the encoding depends on the bytes alone, and it
/// is not restated here. The call does not fail on any slice: the size of the encoded text can
/// only overflow for an input of more than three quarters of the address space.
#[verifier::external_body]
fn encode_standard(bytes: &[u8]) -> (text: String)
    ensures
        text@ == base64_standard(bytes@),
{
    base64::Engine::encode(&base64::engine::general_purpose::STANDARD, bytes)
}

/// The media type announced for an image by the extension of its file name: JPEG for `jpg` and
/// `jpeg`, GIF for `gif`, WebP for `webp`, and PNG for `png`, for any other extension and for
/// none.
pub open spec fn mime_type(extension: Option<Seq<char>>) -> Seq<char> {
    match extension {
        Some(ext) => if ext == "jpg"@ || ext == "jpeg"@ {
            "image/jpeg"@
        } else if ext == "gif"@ {
            "image/gif"@
        } else if ext == "webp"@ {
            "image/webp"@
        } else {
            "image/png"@
        },
        None => "image/png"@,
    }
}

/// The data URL that carries `encoded`, base64 text, as a resource of type `mime`.
pub open spec fn data_url(mime: Seq<char>, encoded: Seq<char>) -> Seq<char> {
    "data:"@ + mime + ";base64,"@ + encoded
}

/// The media type for an image with the given file name extension.
pub fn mime_for_extension(extension: &Option<String>) -> (mime: &'static str)
    ensures
        mime@ == mime_type(text_view(*extension)),
{
    match extension {
        Some(ext) => {
            let ext = ext.as_str();
            if text_eq(ext, "jpg") || text_eq(ext, "jpeg") {
                "image/jpeg"
            } else if text_eq(ext, "gif") {
                "image/gif"
            } else if text_eq(ext, "webp") {
                "image/webp"
            } else {
                "image/png"
            }
        },
        None => "image/png",
    }
}

/// Puts a data URL together from a media type and base64 text.
pub fn compose_data_url(mime: &str, encoded: &str) -> (url: String)
    ensures
        url@ == data_url(mime@, encoded@),
{
    let mut url = String::from_str("data:");
    url.append(mime);
    url.append(";base64,");
    url.append(encoded);
    url
}

/// The data URL of an image: `image_data` is what the file at `image_path` holds.
pub fn create_data_url(image_path: &str, image_data: &[u8]) -> (url: String)
    ensures
        url@ == data_url(mime_type(path_extension(image_path@)), base64_standard(image_data@)),
{
    let extension = extension_of(image_path);
    let mime = mime_for_extension(&extension);
    let encoded = encode_standard(image_data);
    compose_data_url(mime, encoded.as_str())
}

} // verus!
