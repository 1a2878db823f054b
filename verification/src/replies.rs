//! Replies of the gateway's interface: the status codes, and errors as a status
//! and a JSON object.

use crate::metadata::{GroupBuilder, MetaView, Metadata, Scalar, ScalarView};
use vstd::prelude::*;
use vstd::string::*;

verus! {

/// The status of a request that led to something new.
pub const CREATED: u16 = 201;

/// The status of a malformed or unacceptable request.
pub const BAD_REQUEST: u16 = 400;

/// The status of a request for something that is not there.
pub const NOT_FOUND: u16 = 404;

/// The status of a request that comes too late.
pub const CONFLICT: u16 = 409;

/// The status of a request that may succeed later.
pub const TOO_MANY_REQUESTS: u16 = 429;

/// The status of a failure of the gateway.
pub const INTERNAL_SERVER_ERROR: u16 = 500;

/// The status of a gateway that takes no requests.
pub const SERVICE_UNAVAILABLE: u16 = 503;

/// An error reply.
#[derive(Debug)]
pub struct ApiError {
    /// The status.
    pub status: u16,
    /// The object.
    pub body: Metadata,
}

/// The mathematical reading of an [`ApiError`].
#[verifier::ext_equal]
pub struct ErrorView {
    /// The status.
    pub status: u16,
    /// The object.
    pub body: Map<Seq<char>, MetaView>,
}

impl View for ApiError {
    type V = ErrorView;

    open spec fn view(&self) -> ErrorView {
        ErrorView { status: self.status, body: self.body@ }
    }
}

/// The object of an error reply: an `error` with a code for programs and a
/// text for people.
pub open spec fn error_object(code: Seq<char>, message: Seq<char>) -> Map<Seq<char>, MetaView> {
    Map::empty().insert(
        "error"@,
        MetaView::Group(
            Map::empty().insert("code"@, ScalarView::Text(code)).insert(
                "message"@,
                ScalarView::Text(message),
            ),
        ),
    )
}

/// An error reply with nothing but a code and a text.
pub open spec fn plain_error(status: u16, code: Seq<char>, message: Seq<char>) -> ErrorView {
    ErrorView { status, body: error_object(code, message) }
}

/// Builds an error reply.
pub fn api_error(status: u16, code: &str, message: &str) -> (r: ApiError)
    ensures
        r@ == plain_error(status, code@, message@),
{
    let mut error: GroupBuilder = GroupBuilder::new();
    error.set("code", Scalar::Text(code.to_owned()));
    error.set("message", Scalar::Text(message.to_owned()));
    let mut body: Metadata = Metadata::new();
    body.set("error", error.build());
    ApiError { status, body }
}

} // verus!
