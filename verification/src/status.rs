//! The failures that a request is answered with.

use vstd::prelude::*;

verus! {

/// The gRPC code of a failure inside the server or the camera.
pub const INTERNAL: i32 = 13;

/// The gRPC code of a request that the booth's present state does not allow.
pub const FAILED_PRECONDITION: i32 = 9;

/// A failed request: a gRPC code and a message. `S` is the type of the message,
/// `String` when it runs and `Seq<char>` in contracts.
#[derive(Debug, PartialEq, Eq)]
pub struct Status<S> {
    pub code: i32,
    pub message: S,
}

/// A status as contracts see it.
pub type StatusText = Status<Seq<char>>;

impl View for Status<String> {
    type V = StatusText;

    open spec fn view(&self) -> StatusText {
        Status { code: self.code, message: self.message@ }
    }
}

/// The status of an internal error with this message.
pub open spec fn internal(message: Seq<char>) -> StatusText {
    Status { code: INTERNAL, message }
}

/// The status of a failed precondition with this message.
pub open spec fn failed_precondition(message: Seq<char>) -> StatusText {
    Status { code: FAILED_PRECONDITION, message }
}

/// Calls `tonic::Status::internal`. The contract claims that the status it makes
/// has the code `Internal`, which is 13 on the wire, and the message it was given.
#[verifier::external_body]
fn tonic_internal(message: String) -> (parts: (i32, String))
    ensures
        parts.0 == 13,
        parts.1@ == message@,
{
    let status = tonic::Status::internal(message);
    (status.code() as i32, status.message().to_string())
}

/// Calls `tonic::Status::failed_precondition`. The contract claims that the status
/// it makes has the code `FailedPrecondition`, which is 9 on the wire, and the
/// message it was given.
#[verifier::external_body]
fn tonic_failed_precondition(message: String) -> (parts: (i32, String))
    ensures
        parts.0 == 9,
        parts.1@ == message@,
{
    let status = tonic::Status::failed_precondition(message);
    (status.code() as i32, status.message().to_string())
}

impl Status<String> {
    /// An internal error.
    pub fn internal(message: String) -> (status: Self)
        ensures
            status@ == internal(message@),
    {
        let (code, message) = tonic_internal(message);
        Status { code, message }
    }

    /// A request that the booth's present state does not allow.
    pub fn failed_precondition(message: String) -> (status: Self)
        ensures
            status@ == failed_precondition(message@),
    {
        let (code, message) = tonic_failed_precondition(message);
        Status { code, message }
    }
}

/// An internal error has the code 13 and a failed precondition the code 9, and both
/// say exactly the message that they were given.
pub proof fn law_refusals_say_what_they_are_given(message: Seq<char>)
    ensures
        internal(message).code == 13,
        internal(message).message == message,
        failed_precondition(message).code == 9,
        failed_precondition(message).message == message,
{
}

/// Contracts see a status with its own code and the text of its own message.
pub proof fn law_status_view(status: Status<String>)
    ensures
        status@.code == status.code,
        status@.message == status.message@,
{
}

} // verus!
