//! The values that pass through a user-creation request.

use vstd::prelude::*;
use vstd::string::StringExecFns;
use uuid::Uuid;

verus! {

/// The payload of a user-creation request. Any username is accepted,
/// the empty one included.
#[derive(Clone, Debug, PartialEq, Eq)]
pub struct CreateUser {
    pub username: String,
}

/// A user as created for one request. It is never stored.
#[derive(Debug)]
pub struct User {
    pub id: Uuid,
    pub username: String,
}

/// The body of every reply to a user-creation request.
#[derive(Clone, Debug, PartialEq, Eq)]
pub struct StatusMessage {
    /// Application-level code; it is not the HTTP status.
    pub id: u64,
    /// Human-readable text.
    pub description: String,
}

/// What a `StatusMessage` says, with its text as a sequence of characters.
pub ghost struct StatusMessageView {
    pub id: u64,
    pub description: Seq<char>,
}

impl View for StatusMessage {
    type V = StatusMessageView;

    open spec fn view(&self) -> StatusMessageView {
        StatusMessageView { id: self.id, description: self.description@ }
    }
}

/// The application-level id of a reply that reports success.
pub const CREATED_ID: u64 = 1;

/// The message that reports the creation of a user called `username`.
pub open spec fn created_message(username: Seq<char>) -> StatusMessageView {
    StatusMessageView { id: CREATED_ID, description: username + " created"@ }
}

impl User {
    /// The message that reports the creation of this user.
    pub open spec fn status_message(self) -> StatusMessageView {
        created_message(self.username@)
    }

    /// Makes the user that a payload asks for, under the identifier `id`.
    pub fn new(id: Uuid, payload: &CreateUser) -> (user: User)
        ensures
            user.id == id,
            user.username@ == payload.username@,
    {
        User { id, username: payload.username.clone() }
    }

    /// Reports the creation of this user. The message names the user and
    /// nothing else: the identifier is dropped with the user.
    pub fn into_status_message(self) -> (message: StatusMessage)
        ensures
            message@ == self.status_message(),
    {
        StatusMessage { id: CREATED_ID, description: self.username.concat(" created") }
    }
}

/// The message that reports a user's creation does not show the user's
/// identifier: users of one name are reported alike, whatever their
/// identifiers.
pub proof fn lemma_status_message_ignores_id(a: User, b: User)
    requires
        a.username@ == b.username@,
    ensures
        a.status_message() == b.status_message(),
{
}

} // verus!
