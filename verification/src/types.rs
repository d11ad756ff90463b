//! Data carried between the components, the service layer and the parent.

use vstd::prelude::*;

verus! {

/// Opaque failure reported by the service layer. The components never look
/// inside it: they store it, display its message, or drop it.
#[derive(Debug, PartialEq, Eq, Clone)]
pub struct Error {
    pub message: String,
}

/// Snapshot of the currently authenticated viewer, supplied by the session
/// layer through component properties.
#[derive(Debug, PartialEq, Eq, Clone)]
pub struct UserInfo {
    pub username: String,
    pub bio: Option<String>,
    pub image: Option<String>,
}

/// A user profile as the server reports it. `following` says whether the
/// current viewer follows this user; the record is always replaced
/// wholesale, never merged field by field.
#[derive(Debug, PartialEq, Eq, Clone)]
pub struct ProfileInfo {
    pub username: String,
    pub bio: Option<String>,
    pub image: Option<String>,
    pub following: bool,
}

/// The draft of a comment, edited character by character as the user types.
#[derive(Debug, PartialEq, Eq, Clone)]
pub struct CommentCreateInfo {
    pub body: String,
}

/// A comment as the server returns it after creation.
#[derive(Debug, PartialEq, Eq, Clone)]
pub struct CommentInfo {
    pub id: u64,
    pub body: String,
}

/// Token for one in-flight network operation. A component holds at most one;
/// issuing a new request replaces it. Dropping the token does not cancel the
/// underlying operation: its response still arrives as a message.
#[derive(Debug, PartialEq, Eq, Clone)]
pub struct PendingRequest {}

impl Default for CommentCreateInfo {
    /// An empty draft.
    fn default() -> (r: Self)
        ensures
            r.body@ == Seq::<char>::empty(),
    {
        CommentCreateInfo { body: String::new() }
    }
}

/// Clones an optional string, preserving the value exactly.
pub fn clone_opt_string(s: &Option<String>) -> (r: Option<String>)
    ensures
        r == *s,
{
    match s {
        Some(x) => Some(x.clone()),
        None => None,
    }
}

/// Clones an optional error, preserving the value exactly.
pub fn clone_opt_error(e: &Option<Error>) -> (r: Option<Error>)
    ensures
        r == *e,
{
    match e {
        Some(x) => Some(Error { message: x.message.clone() }),
        None => None,
    }
}

} // verus!
