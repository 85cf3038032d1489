//! What the upload endpoint answers: a status code and a short body.

use vstd::prelude::*;
use vstd::string::*;
use crate::media::UploadError;
use crate::upload::shown;

verus! {

/// An answer of the upload endpoint.
#[derive(PartialEq, Eq, Debug)]
pub struct HttpReply {
    /// The HTTP status code.
    pub status: u16,
    /// The body: the locator on success, else a message.
    pub body: String,
}

/// Why a request never got as far as an upload.
#[derive(Clone, Copy, PartialEq, Eq, Debug, Structural)]
pub enum BodyRejection {
    /// The declared length of the body is over the limit.
    PayloadTooLarge,
    /// The request declares no length.
    LengthRequired,
    /// The body is not a well-formed multipart body.
    Malformed,
    /// The body is well formed but carries no part, so there is no file.
    MissingPart,
}

/// The status code that reports `error`.
pub open spec fn status_of(error: UploadError) -> u16 {
    match error {
        UploadError::PayloadTooLarge => 413,
        UploadError::BadRequest => 400,
        UploadError::UnsupportedMediaType => 415,
        UploadError::MetadataWriteFailed => 500,
        UploadError::BlobWriteFailed => 500,
    }
}

/// The message that reports `error`.
pub open spec fn message_of(error: UploadError) -> Seq<char> {
    match error {
        UploadError::PayloadTooLarge => "File size must be smaller than 25 MBs."@,
        UploadError::BadRequest => "Content type is empty."@,
        UploadError::UnsupportedMediaType => "Content must be image."@,
        UploadError::MetadataWriteFailed => "Error connecting to database."@,
        UploadError::BlobWriteFailed => "Error writing to file."@,
    }
}

/// The status code that reports `rejection`.
pub open spec fn rejection_status(rejection: BodyRejection) -> u16 {
    match rejection {
        BodyRejection::PayloadTooLarge => 413,
        BodyRejection::LengthRequired => 411,
        BodyRejection::Malformed => 400,
        BodyRejection::MissingPart => 400,
    }
}

/// The message that reports `rejection`.
pub open spec fn rejection_message(rejection: BodyRejection) -> Seq<char> {
    match rejection {
        BodyRejection::PayloadTooLarge => "File size must be smaller than 25 MBs."@,
        BodyRejection::LengthRequired => "File length required."@,
        BodyRejection::Malformed => "Bad Request!"@,
        BodyRejection::MissingPart => "File part required."@,
    }
}

/// The status code and body that report how an upload ended.
pub open spec fn answer_of(outcome: Result<Seq<char>, UploadError>) -> (u16, Seq<char>) {
    match outcome {
        Ok(locator) => (200, locator),
        Err(error) => (status_of(error), message_of(error)),
    }
}

impl UploadError {
    /// The status code that reports this error.
    pub fn status(&self) -> (status: u16)
        ensures
            status == status_of(*self),
    {
        match self {
            UploadError::PayloadTooLarge => 413,
            UploadError::BadRequest => 400,
            UploadError::UnsupportedMediaType => 415,
            UploadError::MetadataWriteFailed => 500,
            UploadError::BlobWriteFailed => 500,
        }
    }

    /// The message that reports this error.
    pub fn message(&self) -> (message: String)
        ensures
            message@ == message_of(*self),
    {
        match self {
            UploadError::PayloadTooLarge => String::from_str(
                "File size must be smaller than 25 MBs.",
            ),
            UploadError::BadRequest => String::from_str("Content type is empty."),
            UploadError::UnsupportedMediaType => String::from_str("Content must be image."),
            UploadError::MetadataWriteFailed => String::from_str("Error connecting to database."),
            UploadError::BlobWriteFailed => String::from_str("Error writing to file."),
        }
    }
}

/// Status 200 is the answer to a stored image and to nothing else, and
/// its body is the image's locator: no error and no rejection is answered
/// with it.
pub proof fn ok_is_answered_only_with_a_locator(
    outcome: Result<Seq<char>, UploadError>,
    rejection: BodyRejection,
)
    ensures
        answer_of(outcome).0 == 200 <==> outcome is Ok,
        outcome matches Ok(locator) ==> answer_of(outcome) == (200u16, locator),
        rejection_status(rejection) != 200,
{
}

/// Answers an upload that has ended: 200 and the locator for a stored
/// image, else the status and message of the error.
pub fn answer(outcome: Result<String, UploadError>) -> (reply: HttpReply)
    ensures
        (reply.status, reply.body@) == answer_of(shown(outcome)),
        reply.status == 200 <==> outcome is Ok,
{
    match outcome {
        Ok(locator) => HttpReply { status: 200, body: locator },
        Err(error) => HttpReply { status: error.status(), body: error.message() },
    }
}

/// Answers a request that never got as far as an upload: its body was
/// rejected or held no part. Such a request is never answered with 200.
pub fn answer_rejection(rejection: BodyRejection) -> (reply: HttpReply)
    ensures
        reply.status == rejection_status(rejection),
        reply.body@ == rejection_message(rejection),
        reply.status != 200,
{
    match rejection {
        BodyRejection::PayloadTooLarge => HttpReply {
            status: 413,
            body: String::from_str("File size must be smaller than 25 MBs."),
        },
        BodyRejection::LengthRequired => HttpReply {
            status: 411,
            body: String::from_str("File length required."),
        },
        BodyRejection::Malformed => HttpReply {
            status: 400,
            body: String::from_str("Bad Request!"),
        },
        BodyRejection::MissingPart => HttpReply {
            status: 400,
            body: String::from_str("File part required."),
        },
    }
}

} // verus!
