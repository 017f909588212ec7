//! Taking an image out of a chat message.
//!
//! Two strategies are tried in order. First the attachments: the first one
//! whose declared content type begins with `image/` is downloaded. If there
//! is none, or its download fails, the embeds: the first one with an image
//! URL is fetched, and the fetched bytes are accepted only when their sniffed
//! type begins with `image/`. Downloads happen outside the library; the steps
//! below say what to fetch next and what a fetch's result leads to.

use vstd::prelude::*;
use crate::error::RelayError;
use crate::text::{is_prefix, starts_with};

verus! {

/// The MIME type that `infer` detects from the leading bytes of `b`, if any.
pub uninterp spec fn sniffed_mime(b: Seq<u8>) -> Option<Seq<char>>;

/// Relies on `infer::get` and `infer::Type::mime_type`: the MIME type
/// detected from the content of `bytes`, or `None` when it matches no known
/// kind.
#[verifier::external_body]
fn sniff_mime(bytes: &Vec<u8>) -> (r: Option<String>)
    ensures
        match r {
            Some(m) => sniffed_mime(bytes@) == Some(m@),
            None => sniffed_mime(bytes@) is None,
        },
{
    infer::get(bytes).map(|t| t.mime_type().to_string())
}

/// What extraction reads of an attachment.
pub struct AttachmentInfo {
    pub content_type: Option<String>,
}

/// What extraction reads of an embed.
pub struct EmbedInfo {
    pub image_url: Option<String>,
}

/// What extraction reads of a message.
pub struct SourceMessage {
    pub attachments: Vec<AttachmentInfo>,
    pub embeds: Vec<EmbedInfo>,
}

/// An image and its MIME type.
pub struct ImageData {
    pub mime_type: String,
    pub bytes: Vec<u8>,
}

/// Where extraction stands.
pub enum Extraction {
    /// Download the attachment at this index.
    DownloadAttachment(usize),
    /// Fetch the image URL of the embed at this index.
    FetchEmbed(usize),
    /// An image was found.
    Found(ImageData),
    /// Both strategies failed.
    Failed,
}

/// The prefix of image MIME types.
pub open spec fn image_prefix() -> Seq<char> {
    "image/"@
}

/// Whether an attachment declares an image type.
pub open spec fn is_image_attachment(a: AttachmentInfo) -> bool {
    match a.content_type {
        Some(t) => is_prefix(image_prefix(), t@),
        None => false,
    }
}

/// `k` is the first attachment that declares an image type.
pub open spec fn first_image_attachment_at(atts: Seq<AttachmentInfo>, k: int) -> bool {
    &&& 0 <= k < atts.len()
    &&& is_image_attachment(atts[k])
    &&& forall|j: int| 0 <= j < k ==> !is_image_attachment(#[trigger] atts[j])
}

/// Whether some attachment declares an image type.
pub open spec fn has_image_attachment(atts: Seq<AttachmentInfo>) -> bool {
    exists|k: int| 0 <= k < atts.len() && is_image_attachment(#[trigger] atts[k])
}

/// `k` is the first embed with an image URL.
pub open spec fn first_embed_image_at(embeds: Seq<EmbedInfo>, k: int) -> bool {
    &&& 0 <= k < embeds.len()
    &&& embeds[k].image_url is Some
    &&& forall|j: int| 0 <= j < k ==> (#[trigger] embeds[j]).image_url is None
}

/// Whether some embed has an image URL.
pub open spec fn has_embed_image(embeds: Seq<EmbedInfo>) -> bool {
    exists|k: int| 0 <= k < embeds.len() && (#[trigger] embeds[k]).image_url is Some
}

/// The step after the attachments are done with: the first embed image,
/// else failure.
pub open spec fn embed_step(m: SourceMessage, r: Extraction) -> bool {
    match r {
        Extraction::FetchEmbed(j) => first_embed_image_at(m.embeds@, j as int),
        Extraction::Failed => !has_embed_image(m.embeds@),
        _ => false,
    }
}

/// The first step: the first image attachment, else as `embed_step`.
pub open spec fn start_step(m: SourceMessage, r: Extraction) -> bool {
    if has_image_attachment(m.attachments@) {
        match r {
            Extraction::DownloadAttachment(k) => first_image_attachment_at(m.attachments@, k as int),
            _ => false,
        }
    } else {
        embed_step(m, r)
    }
}

/// The step after downloading attachment `k`: found with its declared type
/// when the download gave bytes, else as `embed_step`.
pub open spec fn attachment_step(m: SourceMessage, k: int, download: Option<Vec<u8>>, r: Extraction) -> bool {
    match download {
        Some(bytes) => match r {
            Extraction::Found(img) => img.bytes@ == bytes@
                && img.mime_type@ == m.attachments@[k].content_type->0@,
            _ => false,
        },
        None => embed_step(m, r),
    }
}

/// Whether fetched embed bytes are accepted: their sniffed type is an image type.
pub open spec fn sniffed_image(b: Seq<u8>) -> bool {
    match sniffed_mime(b) {
        Some(t) => is_prefix(image_prefix(), t),
        None => false,
    }
}

/// The step after fetching an embed image: found with the sniffed type
/// when the fetch gave bytes of an image type, else failure.
pub open spec fn embed_fetch_step(fetched: Option<Vec<u8>>, r: Extraction) -> bool {
    match fetched {
        Some(bytes) => if sniffed_image(bytes@) {
            match r {
                Extraction::Found(img) => img.bytes@ == bytes@
                    && img.mime_type@ == sniffed_mime(bytes@)->0,
                _ => false,
            }
        } else {
            r is Failed
        },
        None => r is Failed,
    }
}

/// The index of the first attachment that declares an image type.
pub fn first_image_attachment(atts: &Vec<AttachmentInfo>) -> (r: Option<usize>)
    ensures
        match r {
            Some(k) => first_image_attachment_at(atts@, k as int),
            None => !has_image_attachment(atts@),
        },
{
    let mut i: usize = 0;
    while i < atts.len()
        invariant
            i <= atts@.len(),
            forall|j: int| 0 <= j < i ==> !is_image_attachment(#[trigger] atts@[j]),
        decreases atts.len() - i,
    {
        match &atts[i].content_type {
            Some(t) => {
                if starts_with(t.as_str(), "image/") {
                    return Some(i);
                }
            },
            None => {},
        }
        i = i + 1;
    }
    None
}

/// The index of the first embed with an image URL.
pub fn first_embed_image(embeds: &Vec<EmbedInfo>) -> (r: Option<usize>)
    ensures
        match r {
            Some(k) => first_embed_image_at(embeds@, k as int),
            None => !has_embed_image(embeds@),
        },
{
    let mut i: usize = 0;
    while i < embeds.len()
        invariant
            i <= embeds@.len(),
            forall|j: int| 0 <= j < i ==> (#[trigger] embeds@[j]).image_url is None,
        decreases embeds.len() - i,
    {
        if embeds[i].image_url.is_some() {
            return Some(i);
        }
        i = i + 1;
    }
    None
}

fn next_from_embeds(m: &SourceMessage) -> (r: Extraction)
    ensures
        embed_step(*m, r),
{
    match first_embed_image(&m.embeds) {
        Some(j) => Extraction::FetchEmbed(j),
        None => Extraction::Failed,
    }
}

/// The first step of extracting an image from `m`.
pub fn start_extraction(m: &SourceMessage) -> (r: Extraction)
    ensures
        start_step(*m, r),
{
    match first_image_attachment(&m.attachments) {
        Some(k) => Extraction::DownloadAttachment(k),
        None => next_from_embeds(m),
    }
}

/// The step after attachment `k` of `m` was downloaded, or its download failed.
pub fn after_attachment(m: &SourceMessage, k: usize, download: Option<Vec<u8>>) -> (r: Extraction)
    requires
        first_image_attachment_at(m.attachments@, k as int),
    ensures
        attachment_step(*m, k as int, download, r),
{
    match download {
        Some(bytes) => {
            let mime_type = m.attachments[k].content_type.as_ref().unwrap().clone();
            Extraction::Found(ImageData { mime_type, bytes })
        },
        None => next_from_embeds(m),
    }
}

/// The step for fetched embed bytes, given their sniffed type: found with
/// that type when it is an image type, else failure.
pub fn accept_sniffed(bytes: Vec<u8>, sniffed: Option<String>) -> (r: Extraction)
    ensures
        match sniffed {
            Some(t) => if is_prefix(image_prefix(), t@) {
                r is Found && r->Found_0.bytes@ == bytes@ && r->Found_0.mime_type@ == t@
            } else {
                r is Failed
            },
            None => r is Failed,
        },
{
    match sniffed {
        Some(mime_type) => {
            if starts_with(mime_type.as_str(), "image/") {
                Extraction::Found(ImageData { mime_type, bytes })
            } else {
                Extraction::Failed
            }
        },
        None => Extraction::Failed,
    }
}

/// The step after an embed image was fetched, or its fetch failed.
pub fn after_embed(fetched: Option<Vec<u8>>) -> (r: Extraction)
    ensures
        embed_fetch_step(fetched, r),
{
    match fetched {
        Some(bytes) => {
            let sniffed = sniff_mime(&bytes);
            accept_sniffed(bytes, sniffed)
        },
        None => Extraction::Failed,
    }
}

/// The outcome of a finished extraction: the image, or `NoImageFound`.
/// `None` while a fetch is still pending.
pub fn extraction_result(e: Extraction) -> (r: Option<Result<ImageData, RelayError>>)
    ensures
        match e {
            Extraction::Found(img) => r is Some && r->0 is Ok && r->0->Ok_0 == img,
            Extraction::Failed => r == Some(Err::<ImageData, RelayError>(RelayError::NoImageFound)),
            _ => r is None,
        },
{
    match e {
        Extraction::Found(img) => Some(Ok(img)),
        Extraction::Failed => Some(Err(RelayError::NoImageFound)),
        _ => None,
    }
}

/// Attachments come first: when a message has an image attachment,
/// extraction starts by downloading it, whatever its embeds hold, and when
/// that download gives bytes, those bytes are the image and no embed is
/// fetched.
pub proof fn lemma_attachment_precedence(
    m: SourceMessage,
    first: Extraction,
    download: Option<Vec<u8>>,
    second: Extraction,
)
    requires
        has_image_attachment(m.attachments@),
        start_step(m, first),
        first matches Extraction::DownloadAttachment(k) ==> attachment_step(m, k as int, download, second),
        download is Some,
    ensures
        first is DownloadAttachment,
        second is Found,
        second->Found_0.bytes@ == download->0@,
{
}

} // verus!
