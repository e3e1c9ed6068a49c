//! Laying a link preview out as an embed.

use vstd::prelude::*;
use crate::preview::{LinkPreview, PreviewModel};

verus! {

/// The accent colour of every preview embed.
pub const EMBED_COLOR: u32 = 0x3498db;

/// A preview laid out for display.
#[derive(Debug, Clone)]
pub struct PreviewEmbed {
    pub title: String,
    pub description: String,
    pub thumbnail_url: String,
    pub image_url: String,
    pub color: u32,
    pub source_url: String,
}

/// The text of an optional part, or the empty text.
pub open spec fn or_empty(o: Option<Seq<char>>) -> Seq<char> {
    match o {
        Some(s) => s,
        None => Seq::empty(),
    }
}

/// The embed's description: the page's description followed by a link to it.
pub open spec fn described(description: Option<Seq<char>>, source: Seq<char>) -> Seq<char> {
    or_empty(description) + "\n\nFor more information, [click here]("@ + source + ")"@
}

/// The embed's large image: the screenshot where there is a non-empty one,
/// else the page's image.
pub open spec fn large_image(p: PreviewModel) -> Seq<char> {
    match p.screenshot_url {
        Some(s) if s.len() > 0 => s,
        _ => or_empty(p.image_url),
    }
}

/// The text of an optional string, or a new empty string.
fn text_or_empty(o: &Option<String>) -> (r: String)
    ensures
        r@ == or_empty(crate::preview::opt_view(*o)),
{
    match o {
        Some(s) => s.clone(),
        None => String::new(),
    }
}

/// Lays out the preview of `source_url`: its title, its description with a
/// link to the page, its image as thumbnail, the screenshot (or else the image)
/// as large image, and the fixed accent colour. Missing parts become empty.
pub fn build_embed(preview: &LinkPreview, source_url: &str) -> (r: PreviewEmbed)
    ensures
        r.title@ == or_empty(preview@.title),
        r.description@ == described(preview@.description, source_url@),
        r.thumbnail_url@ == or_empty(preview@.image_url),
        r.image_url@ == large_image(preview@),
        r.color == EMBED_COLOR,
        r.source_url@ == source_url@,
{
    let mut description = text_or_empty(&preview.description);
    description.append("\n\nFor more information, [click here](");
    description.append(source_url);
    description.append(")");
    let image_url = match &preview.screenshot_url {
        Some(s) if !s.as_str().is_empty() => s.clone(),
        _ => text_or_empty(&preview.image_url),
    };
    PreviewEmbed {
        title: text_or_empty(&preview.title),
        description,
        thumbnail_url: text_or_empty(&preview.image_url),
        image_url,
        color: EMBED_COLOR,
        source_url: source_url.to_owned(),
    }
}

} // verus!
