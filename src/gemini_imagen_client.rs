//! The generative image client: request bodies for the image endpoint, with
//! an input image carried as standard base64, and the image taken out of the
//! answer: the first part with inline data in the first candidate.

use vstd::prelude::*;
use base64::Engine;
use crate::error::{ExchangeFailure, RelayError};

verus! {

#[verifier::external_type_specification]
#[verifier::external_body]
pub struct ExDecodeError(base64::DecodeError);

/// What `base64`'s standard engine makes of `b`: padded base64 text.
pub uninterp spec fn base64_encoded(b: Seq<u8>) -> Seq<char>;

/// What `base64`'s standard engine decodes `s` to, or `None` when it
/// refuses `s`.
pub uninterp spec fn base64_decoded(s: Seq<char>) -> Option<Seq<u8>>;

/// Relies on `base64::engine::general_purpose::STANDARD.encode`: the padded
/// standard base64 text of `bytes`.
#[verifier::external_body]
fn encode_base64(bytes: &Vec<u8>) -> (r: String)
    ensures
        r@ == base64_encoded(bytes@),
{
    base64::engine::general_purpose::STANDARD.encode(bytes)
}

/// Relies on `base64::engine::general_purpose::STANDARD.decode`: the bytes
/// that `text` encodes, or the engine's error.
#[verifier::external_body]
fn decode_base64(text: &str) -> (r: Result<Vec<u8>, base64::DecodeError>)
    ensures
        r is Ok <==> base64_decoded(text@) is Some,
        r is Ok ==> r->Ok_0@ == base64_decoded(text@)->0,
{
    base64::engine::general_purpose::STANDARD.decode(text)
}

/// The base of the image generation endpoint; the API key follows it.
pub open spec fn image_endpoint_base() -> Seq<char> {
    "https://generativelanguage.googleapis.com/v1beta/models/gemini-2.0-flash-preview-image-generation:generateContent?key="@
}

/// A client of the image generation endpoint.
pub struct GeminiImagenClient {
    gemini_api_key: String,
    client: reqwest::Client,
}

/// A prompt made of text alone.
pub struct GeminiImagenPrompt {
    pub prompt: String,
}

/// A prompt made of text and one image.
pub struct GeminiImagenPromptWithImage {
    pub prompt: String,
    pub image_mime_type: String,
    pub image_data: Vec<u8>,
}

/// The generated image.
pub struct GeminiImagenResponse {
    pub image_data: Vec<u8>,
}

/// Binary data carried as base64 text.
pub struct ImagenInlineData {
    pub mime_type: String,
    pub data: String,
}

/// A part of a request or an answer: text, inline data, or both absent.
/// Absent fields are left out of the encoded request.
pub struct ImagenPart {
    pub text: Option<String>,
    pub inline_data: Option<ImagenInlineData>,
}

/// A block of parts.
pub struct ImagenContent {
    pub parts: Vec<ImagenPart>,
}

/// The kinds of output requested.
pub struct GenerationConfig {
    pub response_modalities: Vec<String>,
}

/// The body of a request to the image endpoint.
pub struct PostImagenPromptRequest {
    pub contents: Vec<ImagenContent>,
    pub generation_config: GenerationConfig,
}

/// One alternative output of the service.
pub struct ImagenCandidate {
    pub content: ImagenContent,
}

/// The body of an answer of the image endpoint.
pub struct PostImagenPromptResponse {
    pub candidates: Vec<ImagenCandidate>,
}

/// A part holding the text `t` and no inline data.
pub open spec fn is_text_part(p: ImagenPart, t: Seq<char>) -> bool {
    p.text is Some && p.text->0@ == t && p.inline_data is None
}

/// The requested output kinds: text and image, in this order.
pub open spec fn text_and_image(m: Seq<String>) -> bool {
    m.len() == 2 && m[0]@ == "TEXT"@ && m[1]@ == "IMAGE"@
}

/// `k` is the first part that holds inline data.
pub open spec fn first_inline_at(parts: Seq<ImagenPart>, k: int) -> bool {
    &&& 0 <= k < parts.len()
    &&& parts[k].inline_data is Some
    &&& forall|j: int| 0 <= j < k ==> (#[trigger] parts[j]).inline_data is None
}

/// No part holds inline data.
pub open spec fn no_inline(parts: Seq<ImagenPart>) -> bool {
    forall|j: int| 0 <= j < parts.len() ==> (#[trigger] parts[j]).inline_data is None
}

/// The base64 payload of the first part with inline data.
pub open spec fn payload_at(parts: Seq<ImagenPart>, k: int) -> Seq<char> {
    parts[k].inline_data->0.data@
}

/// The parts of the first candidate.
pub open spec fn first_parts(r: PostImagenPromptResponse) -> Seq<ImagenPart> {
    r.candidates@[0].content.parts@
}

/// The answer holds an image where one is looked for: it has a candidate,
/// and a part of the first candidate holds inline data.
pub open spec fn has_image(r: PostImagenPromptResponse) -> bool {
    r.candidates@.len() > 0 && !no_inline(first_parts(r))
}

impl GeminiImagenClient {
    pub closed spec fn api_key(&self) -> Seq<char> {
        self.gemini_api_key@
    }

    pub fn new(gemini_api_key: String, client: reqwest::Client) -> (r: Self)
        ensures
            r.api_key() == gemini_api_key@,
    {
        GeminiImagenClient { gemini_api_key, client }
    }

    /// The HTTP client that requests go through.
    pub fn http(&self) -> &reqwest::Client {
        &self.client
    }

    /// The endpoint URL, API key included.
    pub fn endpoint(&self) -> (r: String)
        ensures
            r@ == image_endpoint_base() + self.api_key(),
    {
        let mut url = String::from_str(
            "https://generativelanguage.googleapis.com/v1beta/models/gemini-2.0-flash-preview-image-generation:generateContent?key=",
        );
        url.append(self.gemini_api_key.as_str());
        url
    }
}

fn modalities() -> (r: GenerationConfig)
    ensures
        text_and_image(r.response_modalities@),
{
    GenerationConfig {
        response_modalities: vec![String::from_str("TEXT"), String::from_str("IMAGE")],
    }
}

/// The request for a text prompt: one block with one text part, asking for
/// text and image output.
pub fn build_image_request(prompt: GeminiImagenPrompt) -> (r: PostImagenPromptRequest)
    ensures
        r.contents@.len() == 1,
        r.contents@[0].parts@.len() == 1,
        is_text_part(r.contents@[0].parts@[0], prompt.prompt@),
        text_and_image(r.generation_config.response_modalities@),
{
    let part = ImagenPart { text: Some(prompt.prompt), inline_data: None };
    PostImagenPromptRequest {
        contents: vec![ImagenContent { parts: vec![part] }],
        generation_config: modalities(),
    }
}

/// The request for a prompt with an image: one block with the text part
/// followed by the image as base64 inline data, asking for text and image
/// output.
pub fn build_image_request_with_image(prompt: GeminiImagenPromptWithImage) -> (r: PostImagenPromptRequest)
    ensures
        r.contents@.len() == 1,
        r.contents@[0].parts@.len() == 2,
        is_text_part(r.contents@[0].parts@[0], prompt.prompt@),
        r.contents@[0].parts@[1].text is None,
        r.contents@[0].parts@[1].inline_data is Some,
        r.contents@[0].parts@[1].inline_data->0.mime_type@ == prompt.image_mime_type@,
        r.contents@[0].parts@[1].inline_data->0.data@ == base64_encoded(prompt.image_data@),
        text_and_image(r.generation_config.response_modalities@),
{
    let data = encode_base64(&prompt.image_data);
    let text_part = ImagenPart { text: Some(prompt.prompt), inline_data: None };
    let image_part = ImagenPart {
        text: None,
        inline_data: Some(ImagenInlineData { mime_type: prompt.image_mime_type, data }),
    };
    PostImagenPromptRequest {
        contents: vec![ImagenContent { parts: vec![text_part, image_part] }],
        generation_config: modalities(),
    }
}

/// The index of the first part that holds inline data.
pub fn first_inline_index(parts: &Vec<ImagenPart>) -> (r: Option<usize>)
    ensures
        match r {
            Some(k) => first_inline_at(parts@, k as int),
            None => no_inline(parts@),
        },
{
    let mut i: usize = 0;
    while i < parts.len()
        invariant
            i <= parts@.len(),
            forall|j: int| 0 <= j < i ==> (#[trigger] parts@[j]).inline_data is None,
        decreases parts.len() - i,
    {
        if parts[i].inline_data.is_some() {
            return Some(i);
        }
        i = i + 1;
    }
    None
}

/// The image of an answer: the decoded payload of the first part with
/// inline data in the first candidate. Without a candidate or such a part
/// it is `NoImageInResponse`; a payload that is not base64 is
/// `MalformedResponse`.
pub fn extract_image(answer: &PostImagenPromptResponse) -> (r: Result<GeminiImagenResponse, RelayError>)
    ensures
        !has_image(*answer) <==> r == Err::<GeminiImagenResponse, RelayError>(RelayError::NoImageInResponse),
        has_image(*answer) ==> exists|k: int| {
            &&& first_inline_at(first_parts(*answer), k)
            &&& match base64_decoded(payload_at(first_parts(*answer), k)) {
                Some(b) => r is Ok && r->Ok_0.image_data@ == b,
                None => r == Err::<GeminiImagenResponse, RelayError>(RelayError::MalformedResponse),
            }
        },
{
    if answer.candidates.len() == 0 {
        return Err(RelayError::NoImageInResponse);
    }
    let parts = &answer.candidates[0].content.parts;
    match first_inline_index(parts) {
        None => Err(RelayError::NoImageInResponse),
        Some(k) => {
            let data = &parts[k].inline_data.as_ref().unwrap().data;
            match decode_base64(data.as_str()) {
                Ok(image_data) => Ok(GeminiImagenResponse { image_data }),
                Err(_) => Err(RelayError::MalformedResponse),
            }
        },
    }
}

/// The result of an image prompt, given the parsed answer or why there is
/// none: a transport failure is `ServiceUnavailable`, a body that is not
/// the expected JSON is `MalformedResponse`, and a parsed answer gives what
/// `extract_image` gives.
pub fn finish_image(answer: Result<PostImagenPromptResponse, ExchangeFailure>) -> (r: Result<GeminiImagenResponse, RelayError>)
    ensures
        answer == Err::<PostImagenPromptResponse, ExchangeFailure>(ExchangeFailure::Transport)
            ==> r == Err::<GeminiImagenResponse, RelayError>(RelayError::ServiceUnavailable),
        answer == Err::<PostImagenPromptResponse, ExchangeFailure>(ExchangeFailure::Unparsable)
            ==> r == Err::<GeminiImagenResponse, RelayError>(RelayError::MalformedResponse),
        answer is Ok ==> (!has_image(answer->Ok_0) <==> r == Err::<GeminiImagenResponse, RelayError>(RelayError::NoImageInResponse)),
        answer is Ok && has_image(answer->Ok_0) ==> exists|k: int| {
            &&& first_inline_at(first_parts(answer->Ok_0), k)
            &&& match base64_decoded(payload_at(first_parts(answer->Ok_0), k)) {
                Some(b) => r is Ok && r->Ok_0.image_data@ == b,
                None => r == Err::<GeminiImagenResponse, RelayError>(RelayError::MalformedResponse),
            }
        },
{
    match answer {
        Ok(a) => extract_image(&a),
        Err(ExchangeFailure::Transport) => Err(RelayError::ServiceUnavailable),
        Err(ExchangeFailure::Unparsable) => Err(RelayError::MalformedResponse),
    }
}

} // verus!
