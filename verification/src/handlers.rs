//! The two request handlers of the service.

use vstd::prelude::*;
use uuid::Uuid;
use crate::model::{created_message, CreateUser, StatusMessage, StatusMessageView, User};
use crate::rejection::JsonRejection;
use crate::status::StatusCode;

verus! {

/// The text served on the root path.
pub open spec fn greeting() -> Seq<char> {
    "Jeg æder blåbærsyltetøj!"@
}

/// Handles a request to the root path: the reply is `200 OK` with the
/// greeting, whatever the request held.
pub fn root() -> (reply: (StatusCode, &'static str))
    ensures
        reply.0 == StatusCode::Okay,
        reply.1@ == greeting(),
{
    (StatusCode::Okay, "Jeg æder blåbærsyltetøj!")
}

/// The reply to a user-creation request, given what became of its payload.
pub open spec fn reply_to(payload: Result<CreateUser, JsonRejection>) -> (StatusCode, StatusMessageView) {
    match payload {
        Ok(accepted) => (StatusCode::Created, created_message(accepted.username@)),
        Err(rejection) => (StatusCode::BadRequest, rejection.status_message()),
    }
}

/// Handles a user-creation request.
///
/// An accepted payload is answered with `201 Created` and the username
/// followed by `" created"`. The user gets a fresh identifier, which is not
/// part of the reply. A rejected payload is answered with `400 Bad Request`
/// and the id and description of its rejection.
pub fn create_user(payload: Result<CreateUser, JsonRejection>) -> (reply: (StatusCode, StatusMessage))
    ensures
        (reply.0, reply.1@) == reply_to(payload),
        reply.0 == StatusCode::Created <==> payload is Ok,
        payload matches Ok(accepted) ==> reply.1.id == 1 && reply.1.description@
            == accepted.username@ + " created"@,
        payload matches Err(rejection) ==> reply.1.id == rejection.id() && reply.1.description@
            == rejection.description(),
{
    match payload {
        Ok(payload) => {
            let uuid = Uuid::new_v4();
            let user = User::new(uuid, &payload);
            (StatusCode::Created, user.into_status_message())
        },
        Err(rejection) => (StatusCode::BadRequest, rejection.to_status_message()),
    }
}

/// A rejected payload is always answered with `400 Bad Request`, and the
/// body of the reply is that of the rejection.
pub proof fn lemma_rejected_is_bad_request(rejection: JsonRejection)
    ensures
        reply_to(Err(rejection)).0 == StatusCode::BadRequest,
        reply_to(Err(rejection)).0.code() == 400,
        reply_to(Err(rejection)).1 == rejection.status_message(),
{
}

/// An accepted payload is always answered with `201 Created`, the id 1 and
/// the submitted username followed by `" created"`.
pub proof fn lemma_accepted_is_created(accepted: CreateUser)
    ensures
        reply_to(Ok(accepted)).0 == StatusCode::Created,
        reply_to(Ok(accepted)).0.code() == 201,
        reply_to(Ok(accepted)).1.id == 1,
        reply_to(Ok(accepted)).1.description == accepted.username@ + " created"@,
{
}

/// The reply to an accepted payload is that of any user made from it: no
/// identifier that the user is given shows in the reply.
pub proof fn lemma_reply_ignores_id(accepted: CreateUser, user: User)
    requires
        user.username@ == accepted.username@,
    ensures
        reply_to(Ok(accepted)).1 == user.status_message(),
{
}

} // verus!
