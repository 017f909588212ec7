use slowpoke::error::RelayError;
use slowpoke::image_source::{
    accept_sniffed, after_attachment, after_embed, extraction_result, first_embed_image, first_image_attachment, start_extraction,
    AttachmentInfo, EmbedInfo, Extraction, SourceMessage,
};

const PNG: [u8; 12] = [0x89, 0x50, 0x4E, 0x47, 0x0D, 0x0A, 0x1A, 0x0A, 0, 0, 0, 13];

fn attachment(t: Option<&str>) -> AttachmentInfo {
    AttachmentInfo { content_type: t.map(|s| s.to_string()) }
}

fn embed(url: Option<&str>) -> EmbedInfo {
    EmbedInfo { image_url: url.map(|s| s.to_string()) }
}

#[test]
fn attachment_is_tried_before_embed() {
    let m = SourceMessage {
        attachments: vec![attachment(Some("text/plain")), attachment(Some("image/jpeg"))],
        embeds: vec![embed(Some("https://example.com/a.png"))],
    };
    let first = start_extraction(&m);
    assert!(matches!(first, Extraction::DownloadAttachment(1)));
    match after_attachment(&m, 1, Some(vec![1, 2, 3])) {
        Extraction::Found(img) => {
            assert_eq!(img.mime_type, "image/jpeg");
            assert_eq!(img.bytes, vec![1, 2, 3]);
        }
        _ => panic!("expected the attachment's bytes"),
    }
}

#[test]
fn failed_download_moves_to_embeds() {
    let m = SourceMessage {
        attachments: vec![attachment(Some("image/png"))],
        embeds: vec![embed(None), embed(Some("https://example.com/b.png"))],
    };
    assert!(matches!(after_attachment(&m, 0, None), Extraction::FetchEmbed(1)));
}

#[test]
fn no_candidates_fail_at_once() {
    let m = SourceMessage { attachments: vec![attachment(None)], embeds: vec![embed(None)] };
    let step = start_extraction(&m);
    assert!(matches!(step, Extraction::Failed));
    assert!(matches!(extraction_result(step), Some(Err(RelayError::NoImageFound))));
}

#[test]
fn embed_bytes_are_sniffed() {
    match after_embed(Some(PNG.to_vec())) {
        Extraction::Found(img) => {
            assert_eq!(img.mime_type, "image/png");
            assert_eq!(img.bytes, PNG.to_vec());
        }
        _ => panic!("expected a png"),
    }
    assert!(matches!(after_embed(Some(b"just some text".to_vec())), Extraction::Failed));
    assert!(matches!(after_embed(Some(b"%PDF-1.4 xx".to_vec())), Extraction::Failed));
    assert!(matches!(after_embed(None), Extraction::Failed));
}

#[test]
fn first_matching_indices() {
    let atts = vec![attachment(None), attachment(Some("video/mp4")), attachment(Some("image/gif"))];
    assert_eq!(first_image_attachment(&atts), Some(2));
    assert_eq!(first_image_attachment(&vec![attachment(Some("imag"))]), None);
    assert_eq!(first_embed_image(&vec![embed(None), embed(Some("u"))]), Some(1));
    assert_eq!(first_embed_image(&vec![]), None);
}

#[test]
fn pending_step_has_no_result() {
    assert!(extraction_result(Extraction::FetchEmbed(0)).is_none());
}

#[test]
fn sniffed_type_decides_acceptance() {
    match accept_sniffed(vec![9], Some("image/webp".to_string())) {
        Extraction::Found(img) => {
            assert_eq!(img.mime_type, "image/webp");
            assert_eq!(img.bytes, vec![9]);
        }
        _ => panic!("expected an image"),
    }
    assert!(matches!(accept_sniffed(vec![9], Some("application/pdf".to_string())), Extraction::Failed));
    assert!(matches!(accept_sniffed(vec![9], None), Extraction::Failed));
}
