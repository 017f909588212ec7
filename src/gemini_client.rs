//! The generative text client: the request body sent to the text endpoint
//! and the text taken out of its answer.
//!
//! The HTTP exchange and the JSON encoding happen at the edge; this module
//! builds the request as data and reads the parsed answer.

use vstd::prelude::*;
use crate::error::{ExchangeFailure, RelayError};
use crate::text::{concat_spec, lemma_concat_append};

verus! {

#[verifier::external_type_specification]
#[verifier::external_body]
pub struct ExHttpClient(reqwest::Client);

/// The base of the text generation endpoint; the API key follows it.
pub open spec fn text_endpoint_base() -> Seq<char> {
    "https://generativelanguage.googleapis.com/v1beta/models/gemini-2.0-flash:generateContent?key="@
}

/// A client of the text generation endpoint.
pub struct GeminiClient {
    gemini_api_key: String,
    client: reqwest::Client,
}

/// A prompt: its body and an optional system instruction.
pub struct GeminiPrompt {
    pub prompt: String,
    pub system_instruction: Option<String>,
}

/// The text generated for a prompt.
pub struct GeminiResponse {
    pub response: String,
}

/// One text fragment.
pub struct Part {
    pub text: String,
}

/// A block of content: its fragments in order.
pub struct Content {
    pub parts: Vec<Part>,
}

/// The system instruction block of a request.
pub struct SystemInstruction {
    pub parts: Vec<Part>,
}

/// The body of a request to the text endpoint.
pub struct PostPromptRequest {
    /// Left out of the encoded body when absent.
    pub system_instruction: Option<SystemInstruction>,
    pub contents: Vec<Content>,
}

/// One alternative output of the service.
pub struct Candidate {
    pub content: Content,
}

/// The body of an answer of the text endpoint.
pub struct PostPromptResponse {
    pub candidates: Vec<Candidate>,
}

/// The fragments of a block, joined in order.
pub open spec fn content_text(c: Content) -> Seq<char> {
    concat_spec(c.parts@.map_values(|p: Part| p.text@))
}

/// All fragments of all candidates, joined candidate by candidate and part
/// by part.
pub open spec fn response_text_spec(r: PostPromptResponse) -> Seq<char> {
    concat_spec(r.candidates@.map_values(|c: Candidate| content_text(c.content)))
}

/// The text fragments of an answer, candidate after candidate, each
/// candidate's parts in order.
pub open spec fn fragments(r: PostPromptResponse) -> Seq<Seq<char>> {
    r.candidates@.map_values(|c: Candidate| c.content.parts@.map_values(|p: Part| p.text@)).flatten()
}

/// Each list of parts joined.
pub open spec fn join_each(xss: Seq<Seq<Seq<char>>>) -> Seq<Seq<char>> {
    xss.map_values(|xs: Seq<Seq<char>>| concat_spec(xs))
}

/// Joining nested lists of parts level by level is the same as joining
/// the flattened list.
pub proof fn lemma_concat_flatten(xss: Seq<Seq<Seq<char>>>)
    ensures
        concat_spec(xss.flatten()) == concat_spec(join_each(xss)),
    decreases xss.len(),
{
    if xss.len() == 0 {
        assert(join_each(xss) =~= Seq::<Seq<char>>::empty());
        assert(xss.flatten() =~= Seq::<Seq<char>>::empty());
    } else {
        let rest = xss.drop_first();
        let head = concat_spec(xss.first());
        lemma_concat_flatten(rest);
        assert(xss.flatten() == xss.first() + rest.flatten());
        lemma_concat_append(xss.first(), rest.flatten());
        assert(join_each(xss) =~= seq![head] + join_each(rest));
        lemma_concat_append(seq![head], join_each(rest));
        assert(seq![head].drop_last() =~= Seq::<Seq<char>>::empty());
        assert(concat_spec(seq![head]) == concat_spec(seq![head].drop_last()) + head);
        assert(Seq::<char>::empty() + head =~= head);
    }
}

/// The generated text is every text fragment of the answer, joined in
/// order: candidates in the order returned, and within a candidate its
/// parts in order.
pub proof fn lemma_response_text_is_all_fragments(r: PostPromptResponse)
    ensures
        response_text_spec(r) == concat_spec(fragments(r)),
{
    let xss = r.candidates@.map_values(|c: Candidate| c.content.parts@.map_values(|p: Part| p.text@));
    lemma_concat_flatten(xss);
    assert(join_each(xss) =~= r.candidates@.map_values(|c: Candidate| content_text(c.content)));
}

/// A block that holds exactly one fragment with the text `t`.
pub open spec fn single_part(parts: Seq<Part>, t: Seq<char>) -> bool {
    parts.len() == 1 && parts[0].text@ == t
}

impl GeminiClient {
    pub closed spec fn api_key(&self) -> Seq<char> {
        self.gemini_api_key@
    }

    pub fn new(gemini_api_key: String, client: reqwest::Client) -> (r: Self)
        ensures
            r.api_key() == gemini_api_key@,
    {
        GeminiClient { gemini_api_key, client }
    }

    /// The HTTP client that requests go through.
    pub fn http(&self) -> &reqwest::Client {
        &self.client
    }

    /// The endpoint URL, API key included.
    pub fn endpoint(&self) -> (r: String)
        ensures
            r@ == text_endpoint_base() + self.api_key(),
    {
        let mut url = String::from_str(
            "https://generativelanguage.googleapis.com/v1beta/models/gemini-2.0-flash:generateContent?key=",
        );
        url.append(self.gemini_api_key.as_str());
        url
    }
}

/// The request for a prompt: the system instruction block only when there
/// is an instruction, and one content block holding the prompt's body.
pub fn build_request(prompt: GeminiPrompt) -> (r: PostPromptRequest)
    ensures
        match prompt.system_instruction {
            Some(s) => r.system_instruction is Some && single_part(r.system_instruction->0.parts@, s@),
            None => r.system_instruction is None,
        },
        r.contents@.len() == 1,
        single_part(r.contents@[0].parts@, prompt.prompt@),
{
    let system_instruction = match prompt.system_instruction {
        Some(text) => Some(SystemInstruction { parts: vec![Part { text }] }),
        None => None,
    };
    PostPromptRequest {
        system_instruction,
        contents: vec![Content { parts: vec![Part { text: prompt.prompt }] }],
    }
}

/// The fragments of one block, joined in order.
pub fn join_content(c: &Content) -> (r: String)
    ensures
        r@ == content_text(*c),
{
    let mut out = String::new();
    let mut i: usize = 0;
    while i < c.parts.len()
        invariant
            i <= c.parts@.len(),
            out@ == concat_spec(c.parts@.subrange(0, i as int).map_values(|p: Part| p.text@)),
        decreases c.parts.len() - i,
    {
        out.append(c.parts[i].text.as_str());
        proof {
            let f = |p: Part| p.text@;
            assert(c.parts@.subrange(0, i + 1).map_values(f).drop_last()
                =~= c.parts@.subrange(0, i as int).map_values(f));
        }
        i = i + 1;
    }
    assert(c.parts@.subrange(0, i as int) =~= c.parts@);
    out
}

/// The generated text of an answer: every fragment of every candidate, in
/// order. An answer without candidates gives the empty text.
pub fn response_text(r: &PostPromptResponse) -> (out: GeminiResponse)
    ensures
        out.response@ == response_text_spec(*r),
{
    let mut text = String::new();
    let mut i: usize = 0;
    while i < r.candidates.len()
        invariant
            i <= r.candidates@.len(),
            text@ == concat_spec(
                r.candidates@.subrange(0, i as int).map_values(|c: Candidate| content_text(c.content)),
            ),
        decreases r.candidates.len() - i,
    {
        let piece = join_content(&r.candidates[i].content);
        text.append(piece.as_str());
        proof {
            let f = |c: Candidate| content_text(c.content);
            assert(r.candidates@.subrange(0, i + 1).map_values(f).drop_last()
                =~= r.candidates@.subrange(0, i as int).map_values(f));
        }
        i = i + 1;
    }
    assert(r.candidates@.subrange(0, i as int) =~= r.candidates@);
    GeminiResponse { response: text }
}

/// The result of a prompt, given the parsed answer or why there is none.
/// Any failure of the exchange, an unparsable body included, is
/// `ServiceUnavailable`.
pub fn finish_prompt(answer: Result<PostPromptResponse, ExchangeFailure>) -> (r: Result<GeminiResponse, RelayError>)
    ensures
        match answer {
            Ok(a) => r is Ok && r->Ok_0.response@ == response_text_spec(a),
            Err(_) => r == Err::<GeminiResponse, RelayError>(RelayError::ServiceUnavailable),
        },
{
    match answer {
        Ok(a) => Ok(response_text(&a)),
        Err(_) => Err(RelayError::ServiceUnavailable),
    }
}

} // verus!
