//! The errors of an invocation.

use vstd::prelude::*;

verus! {

/// Why an invocation could not produce its result.
#[derive(Clone, Copy, Debug, PartialEq, Eq, Structural)]
pub enum RelayError {
    /// The room's history cannot be read.
    AccessDenied,
    /// The generative service could not be reached or refused the request;
    /// for text, also an answer that is not the expected JSON.
    ServiceUnavailable,
    /// The image service answered without an image.
    NoImageInResponse,
    /// No image could be taken from the referenced message.
    NoImageFound,
    /// The image service's answer was not the expected JSON, or held an
    /// image that could not be decoded.
    MalformedResponse,
}

/// Why an exchange with a generative endpoint gave no parsed answer.
#[derive(Clone, Copy, Debug, PartialEq, Eq, Structural)]
pub enum ExchangeFailure {
    /// The connection failed, or the status was not a success.
    Transport,
    /// The body was not JSON of the expected shape.
    Unparsable,
}

/// The message shown to the user for each error.
pub open spec fn hint_spec(e: RelayError) -> Seq<char> {
    match e {
        RelayError::AccessDenied => "Ah! I'm not able to see the messages in this chat. You might need to add me to the chat or channel before I can chat with you."@,
        RelayError::ServiceUnavailable => "Something went wrong while talking to the model. Please try again later."@,
        RelayError::NoImageInResponse => "Failed to generate an image. Try altering the prompt."@,
        RelayError::NoImageFound => "Could not extract image from the referenced message."@,
        RelayError::MalformedResponse => "The model gave an answer that could not be read. Try again."@,
    }
}

impl RelayError {
    /// The message shown to the user for this error.
    pub fn hint(&self) -> (r: &'static str)
        ensures
            r@ == hint_spec(*self),
    {
        match self {
            RelayError::AccessDenied => "Ah! I'm not able to see the messages in this chat. You might need to add me to the chat or channel before I can chat with you.",
            RelayError::ServiceUnavailable => "Something went wrong while talking to the model. Please try again later.",
            RelayError::NoImageInResponse => "Failed to generate an image. Try altering the prompt.",
            RelayError::NoImageFound => "Could not extract image from the referenced message.",
            RelayError::MalformedResponse => "The model gave an answer that could not be read. Try again.",
        }
    }
}

} // verus!
