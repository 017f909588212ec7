use slowpoke::error::{ExchangeFailure, RelayError};
use slowpoke::gemini_client::{
    build_request, finish_prompt, response_text, Candidate, Content, GeminiClient, GeminiPrompt, Part,
    PostPromptResponse,
};
use slowpoke::gemini_imagen_client::{
    build_image_request, build_image_request_with_image, extract_image, finish_image, first_inline_index,
    GeminiImagenClient, GeminiImagenPrompt, GeminiImagenPromptWithImage, ImagenCandidate, ImagenContent,
    ImagenInlineData, ImagenPart, PostImagenPromptResponse,
};

fn content(texts: &[&str]) -> Content {
    Content { parts: texts.iter().map(|t| Part { text: t.to_string() }).collect() }
}

fn text_part(t: &str) -> ImagenPart {
    ImagenPart { text: Some(t.to_string()), inline_data: None }
}

fn data_part(data: &str) -> ImagenPart {
    ImagenPart {
        text: None,
        inline_data: Some(ImagenInlineData { mime_type: "image/png".to_string(), data: data.to_string() }),
    }
}

fn answer(parts: Vec<ImagenPart>) -> PostImagenPromptResponse {
    PostImagenPromptResponse { candidates: vec![ImagenCandidate { content: ImagenContent { parts } }] }
}

#[test]
fn fragments_join_candidate_then_part() {
    let r = PostPromptResponse {
        candidates: vec![Candidate { content: content(&["A"]) }, Candidate { content: content(&["B", "C"]) }],
    };
    assert_eq!(response_text(&r).response, "ABC");
}

#[test]
fn no_candidates_give_empty_text() {
    let r = PostPromptResponse { candidates: vec![] };
    assert_eq!(response_text(&r).response, "");
    assert_eq!(finish_prompt(Ok(PostPromptResponse { candidates: vec![] })).unwrap().response, "");
}

#[test]
fn failed_exchange_is_service_unavailable() {
    assert_eq!(finish_prompt(Err(ExchangeFailure::Transport)).err(), Some(RelayError::ServiceUnavailable));
    assert_eq!(finish_prompt(Err(ExchangeFailure::Unparsable)).err(), Some(RelayError::ServiceUnavailable));
    assert_eq!(finish_image(Err(ExchangeFailure::Transport)).err(), Some(RelayError::ServiceUnavailable));
}

#[test]
fn request_holds_instruction_only_when_given() {
    let with = build_request(GeminiPrompt { prompt: "body".to_string(), system_instruction: Some("sys".to_string()) });
    let si = with.system_instruction.unwrap();
    assert_eq!(si.parts.len(), 1);
    assert_eq!(si.parts[0].text, "sys");
    assert_eq!(with.contents.len(), 1);
    assert_eq!(with.contents[0].parts[0].text, "body");
    let without = build_request(GeminiPrompt { prompt: "b".to_string(), system_instruction: None });
    assert!(without.system_instruction.is_none());
}

#[test]
fn endpoints_carry_the_key() {
    let http = reqwest::Client::new();
    let text = GeminiClient::new("KEY".to_string(), http.clone());
    assert_eq!(
        text.endpoint(),
        "https://generativelanguage.googleapis.com/v1beta/models/gemini-2.0-flash:generateContent?key=KEY"
    );
    let image = GeminiImagenClient::new("K2".to_string(), http);
    assert!(image.endpoint().ends_with("gemini-2.0-flash-preview-image-generation:generateContent?key=K2"));
}

#[test]
fn image_request_asks_for_text_and_image() {
    let r = build_image_request(GeminiImagenPrompt { prompt: "a cat".to_string() });
    assert_eq!(r.contents.len(), 1);
    assert_eq!(r.contents[0].parts.len(), 1);
    assert_eq!(r.contents[0].parts[0].text.as_deref(), Some("a cat"));
    assert_eq!(r.generation_config.response_modalities, vec!["TEXT".to_string(), "IMAGE".to_string()]);
}

#[test]
fn image_request_carries_base64_image() {
    let r = build_image_request_with_image(GeminiImagenPromptWithImage {
        prompt: "remix".to_string(),
        image_mime_type: "image/jpeg".to_string(),
        image_data: b"hello".to_vec(),
    });
    let parts = &r.contents[0].parts;
    assert_eq!(parts.len(), 2);
    assert_eq!(parts[0].text.as_deref(), Some("remix"));
    assert!(parts[1].text.is_none());
    let inline = parts[1].inline_data.as_ref().unwrap();
    assert_eq!(inline.mime_type, "image/jpeg");
    assert_eq!(inline.data, "aGVsbG8=");
}

#[test]
fn first_inline_part_of_first_candidate_is_decoded() {
    let mut a = answer(vec![text_part("here you go"), data_part("aGk="), data_part("aGVsbG8=")]);
    a.candidates.push(ImagenCandidate { content: ImagenContent { parts: vec![data_part("eA==")] } });
    assert_eq!(first_inline_index(&a.candidates[0].content.parts), Some(1));
    assert_eq!(extract_image(&a).unwrap().image_data, b"hi".to_vec());
}

#[test]
fn no_image_part_is_no_image_in_response() {
    let a = answer(vec![text_part("sorry")]);
    assert_eq!(extract_image(&a).err(), Some(RelayError::NoImageInResponse));
    let empty = PostImagenPromptResponse { candidates: vec![] };
    assert_eq!(extract_image(&empty).err(), Some(RelayError::NoImageInResponse));
    let later = PostImagenPromptResponse {
        candidates: vec![
            ImagenCandidate { content: ImagenContent { parts: vec![text_part("t")] } },
            ImagenCandidate { content: ImagenContent { parts: vec![data_part("aGk=")] } },
        ],
    };
    assert_eq!(finish_image(Ok(later)).err(), Some(RelayError::NoImageInResponse));
}

#[test]
fn undecodable_payload_is_malformed() {
    let a = answer(vec![data_part("not base64!!")]);
    assert_eq!(extract_image(&a).err(), Some(RelayError::MalformedResponse));
}

#[test]
fn each_error_has_its_own_hint() {
    let all = [
        RelayError::AccessDenied,
        RelayError::ServiceUnavailable,
        RelayError::NoImageInResponse,
        RelayError::NoImageFound,
        RelayError::MalformedResponse,
    ];
    for (i, a) in all.iter().enumerate() {
        assert!(!a.hint().is_empty());
        for b in &all[i + 1..] {
            assert_ne!(a.hint(), b.hint());
        }
    }
    assert!(RelayError::AccessDenied.hint().starts_with("Ah! I'm not able to see the messages"));
}

#[test]
fn unparsable_image_answer_is_malformed() {
    assert_eq!(finish_image(Err(ExchangeFailure::Unparsable)).err(), Some(RelayError::MalformedResponse));
    let ok = finish_image(Ok(answer(vec![data_part("aGk=")]))).unwrap();
    assert_eq!(ok.image_data, b"hi".to_vec());
}
