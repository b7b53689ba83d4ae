//! # API guards
//!
//! This module provides the bounded request-body value used by the
//! framework-specific guards and extractors: a host framework reads the raw
//! bytes of one inbound request and hands them to [`extract`], which enforces
//! the size ceiling and the UTF-8 requirement and produces a [`RequestBody`]
//! or a typed [`RequestBodyError`].

use vstd::prelude::*;
use vstd::string::StringExecFns;
use vstd::utf8::{
    decode_utf8,
    decode_utf8_encode_utf8,
    encode_utf8,
    encode_utf8_decode_utf8,
    encode_utf8_valid_utf8,
    valid_utf8,
};

verus! {

/// The maximum number of bytes to read from a request body, to avoid DoS.
pub const REQUEST_BODY_LIMIT: usize = 1_000_000;

/// A String representation of the request body. Useful when you need to pass
/// it through as is.
#[derive(Debug, Clone, PartialEq, Eq)]
pub struct RequestBody {
    /// The UTF-8 content of the request body
    pub content: String,
}

impl RequestBody {
    /// A body's content re-encoded as UTF-8 stays under the size ceiling.
    /// Extraction establishes this; the type does not re-validate it.
    pub open spec fn within_limit(self) -> bool {
        encode_utf8(self.content@).len() <= REQUEST_BODY_LIMIT
    }

    /// An empty request body.
    pub fn new() -> (body: Self)
        ensures
            body.content@ == Seq::<char>::empty(),
            body.within_limit(),
    {
        Self { content: String::new() }
    }

    /// Convert the request body into a string
    pub fn into_string(self) -> (content: String)
        ensures
            content == self.content,
    {
        self.content
    }

    /// Convert the request body into a string, or None if it's empty
    pub fn into_optional_string(self) -> (content: Option<String>)
        ensures
            content is None <==> self.content@.len() == 0,
            self.content@.len() > 0 ==> content == Some(self.content),
    {
        if self.content.as_str().is_empty() {
            None
        } else {
            Some(self.content)
        }
    }
}

/// Error type during a request body extraction
#[derive(Debug)]
pub enum RequestBodyError {
    /// Body size is greater than REQUEST_BODY_LIMIT (DoS risk)
    TooLarge,
    /// Not in UTF-8 encoding
    InvalidEncoding,
    /// I/O error
    ReadError(String),
}

/// The status code one extraction failure maps to: 413 Payload too large
/// for an oversized body, 400 Bad request for invalid encoding, 500
/// Internal server error for a failed read.
pub open spec fn failure_status(error: RequestBodyError) -> u16 {
    match error {
        RequestBodyError::TooLarge => 413,
        RequestBodyError::InvalidEncoding => 400,
        RequestBodyError::ReadError(_) => 500,
    }
}

/// The short human-readable message one extraction failure carries.
pub open spec fn failure_message(error: RequestBodyError) -> Seq<char> {
    match error {
        RequestBodyError::TooLarge => "Request body too large"@,
        RequestBodyError::InvalidEncoding => (
        "Request body contains invalid characters when trying to decode as UTF-8"@),
        RequestBodyError::ReadError(detail) => "Failed to read request body: "@ + detail@,
    }
}

impl RequestBodyError {
    /// The wire reply for this failure: its status code and a short
    /// human-readable message, for the host framework to send back.
    pub fn into_response(self) -> (response: (u16, String))
        ensures
            response.0 == failure_status(self),
            response.1@ == failure_message(self),
    {
        match self {
            RequestBodyError::TooLarge => (413, "Request body too large".to_owned()),
            RequestBodyError::InvalidEncoding => (
                400,
                "Request body contains invalid characters when trying to decode as UTF-8".to_owned(),
            ),
            RequestBodyError::ReadError(detail) => {
                let mut message = "Failed to read request body: ".to_owned();
                message.append(detail.as_str());
                (500, message)
            },
        }
    }
}

/// Relies on std's `String::from_utf8`: it succeeds exactly when the bytes
/// are a valid UTF-8 encoding, and then returns their decoding.
#[verifier::external_body]
fn string_from_utf8(bytes: Vec<u8>) -> (decoded: Option<String>)
    ensures
        decoded is Some <==> valid_utf8(bytes@),
        decoded matches Some(content) ==> content@ == decode_utf8(bytes@),
{
    String::from_utf8(bytes).ok()
}

/// Turn the outcome of one bounded body read into a [`RequestBody`] or a
/// typed failure.
///
/// The host framework reads the request's bytes and passes them here, or
/// passes the reader's error text when the source itself failed. A careful
/// reader caps the read at [`REQUEST_BODY_LIMIT`]` + 1` bytes: any longer
/// body is rejected the same way, so nothing more need be buffered. The
/// size check precedes UTF-8 validation, so an oversized body reports
/// [`RequestBodyError::TooLarge`] whatever its bytes hold.
pub fn extract(read_outcome: Result<Vec<u8>, String>) -> (body: Result<
    RequestBody,
    RequestBodyError,
>)
    ensures
        read_outcome matches Err(detail) ==> (body matches Err(
            RequestBodyError::ReadError(reported),
        ) && reported == detail),
        read_outcome matches Ok(bytes) ==> {
            &&& bytes@.len() > REQUEST_BODY_LIMIT <==> (body matches Err(
                RequestBodyError::TooLarge,
            ))
            &&& bytes@.len() <= REQUEST_BODY_LIMIT && !valid_utf8(bytes@) <==> (body matches Err(
                RequestBodyError::InvalidEncoding,
            ))
            &&& bytes@.len() <= REQUEST_BODY_LIMIT && valid_utf8(bytes@) ==> (body matches Ok(
                extracted,
            ) && extracted.content@ == decode_utf8(bytes@) && extracted.within_limit())
        },
{
    match read_outcome {
        Err(detail) => Err(RequestBodyError::ReadError(detail)),
        Ok(bytes) => {
            if bytes.len() > REQUEST_BODY_LIMIT {
                return Err(RequestBodyError::TooLarge);
            }
            proof {
                if valid_utf8(bytes@) {
                    decode_utf8_encode_utf8(bytes@);
                }
            }
            match string_from_utf8(bytes) {
                Some(content) => Ok(RequestBody { content }),
                None => Err(RequestBodyError::InvalidEncoding),
            }
        },
    }
}

/// Extraction is lossless: any text whose UTF-8 encoding fits the size
/// ceiling is valid input for [`extract`], which recovers it verbatim —
/// encoded bytes under the ceiling are never rejected and never altered.
pub proof fn lemma_extraction_round_trip(content: Seq<char>)
    requires
        encode_utf8(content).len() <= REQUEST_BODY_LIMIT,
    ensures
        valid_utf8(encode_utf8(content)),
        decode_utf8(encode_utf8(content)) == content,
{
    encode_utf8_valid_utf8(content);
    encode_utf8_decode_utf8(content);
}

} // verus!
