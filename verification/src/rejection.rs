//! The ways in which the payload of a user-creation request can be rejected.

use vstd::prelude::*;
use crate::model::{StatusMessage, StatusMessageView, CREATED_ID};

verus! {

/// Why a request body did not become a `CreateUser`.
///
/// Each variant has a fixed application-level id and a fixed description;
/// together they are the body of the `400 Bad Request` reply.
#[derive(Clone, Copy, Debug, PartialEq, Eq, Structural)]
pub enum JsonRejection {
    /// The request had no `Content-Type: application/json` header.
    MissingJsonContentType,
    /// The body was well-formed JSON of the wrong shape.
    JsonDataError,
    /// The body was not well-formed JSON.
    JsonSyntaxError,
    /// The bytes of the body could not be read.
    BytesRejection,
    /// Any failure that is none of the above.
    Unknown,
}

impl JsonRejection {
    /// The application-level id reported for this rejection.
    pub open spec fn id(self) -> u64 {
        match self {
            JsonRejection::MissingJsonContentType => 86,
            JsonRejection::JsonDataError => 87,
            JsonRejection::JsonSyntaxError => 88,
            JsonRejection::BytesRejection => 89,
            JsonRejection::Unknown => 99,
        }
    }

    /// The human-readable text reported for this rejection.
    pub open spec fn description(self) -> Seq<char> {
        match self {
            JsonRejection::MissingJsonContentType =>
                "Request didn't have `Content-Type: application/json` header"@,
            JsonRejection::JsonDataError =>
                "Couldn't deserialize the body into the target type"@,
            JsonRejection::JsonSyntaxError => "Syntax error in the body"@,
            JsonRejection::BytesRejection => "Failed to extract the request body"@,
            JsonRejection::Unknown => "Unknown error"@,
        }
    }

    /// The body of the reply that reports this rejection.
    pub open spec fn status_message(self) -> StatusMessageView {
        StatusMessageView { id: self.id(), description: self.description() }
    }

    /// Builds the body of the reply that reports this rejection.
    pub fn to_status_message(&self) -> (message: StatusMessage)
        ensures
            message@ == self.status_message(),
    {
        match self {
            JsonRejection::MissingJsonContentType => StatusMessage {
                id: 86,
                description: "Request didn't have `Content-Type: application/json` header".to_string(),
            },
            JsonRejection::JsonDataError => StatusMessage {
                id: 87,
                description: "Couldn't deserialize the body into the target type".to_string(),
            },
            JsonRejection::JsonSyntaxError => StatusMessage {
                id: 88,
                description: "Syntax error in the body".to_string(),
            },
            JsonRejection::BytesRejection => StatusMessage {
                id: 89,
                description: "Failed to extract the request body".to_string(),
            },
            JsonRejection::Unknown => StatusMessage {
                id: 99,
                description: "Unknown error".to_string(),
            },
        }
    }
}

/// Every rejection reports one of the five ids set aside for failures, and
/// never the id that reports success.
pub proof fn lemma_rejection_id_is_defined(rejection: JsonRejection)
    ensures
        set![86u64, 87u64, 88u64, 89u64, 99u64].contains(rejection.id()),
        rejection.id() != CREATED_ID,
{
}

/// The id tells the rejections apart: two rejections with one id are the
/// same rejection.
pub proof fn lemma_id_determines_rejection(a: JsonRejection, b: JsonRejection)
    requires
        a.id() == b.id(),
    ensures
        a == b,
{
}

} // verus!
