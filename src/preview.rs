//! Link previews: the requests made to the Open Graph service for a link,
//! and the preview read from its answers.

use vstd::prelude::*;
use crate::json::{json_member, json_parse, json_text, json_tree, member, parse_json, text_of, JsonModel};

verus! {

/// The text of `s` with every byte outside the letters, digits and `-_.~`
/// written as `%XX`.
pub uninterp spec fn percent_encoded(s: Seq<char>) -> Seq<char>;

/// Relies on `urlencoding::encode`: percent-encodes every byte of the UTF-8 text
/// but ASCII letters, digits and `-`, `_`, `.`, `~`.
#[verifier::external_body]
fn url_encode(s: &str) -> (r: String)
    ensures
        r@ == percent_encoded(s@),
{
    urlencoding::encode(s).into_owned()
}

/// Why no preview could be had for a link.
#[derive(Debug, Clone, Copy, PartialEq, Eq, Structural)]
pub enum FetchError {
    /// The metadata request got no answer.
    Network,
    /// The metadata answer is no JSON document.
    Parse,
}

/// What the Open Graph service tells of a link; any part may be missing.
#[derive(Debug, Clone)]
pub struct LinkPreview {
    pub title: Option<String>,
    pub description: Option<String>,
    pub image_url: Option<String>,
    pub screenshot_url: Option<String>,
}

/// The contents of a [`LinkPreview`].
pub struct PreviewModel {
    pub title: Option<Seq<char>>,
    pub description: Option<Seq<char>>,
    pub image_url: Option<Seq<char>>,
    pub screenshot_url: Option<Seq<char>>,
}

/// The text of an optional string.
pub open spec fn opt_view(o: Option<String>) -> Option<Seq<char>> {
    match o {
        Some(s) => Some(s@),
        None => None,
    }
}

impl View for LinkPreview {
    type V = PreviewModel;

    open spec fn view(&self) -> PreviewModel {
        PreviewModel {
            title: opt_view(self.title),
            description: opt_view(self.description),
            image_url: opt_view(self.image_url),
            screenshot_url: opt_view(self.screenshot_url),
        }
    }
}

/// The document that an optional JSON value holds.
pub open spec fn opt_tree(v: Option<&serde_json::Value>) -> Option<JsonModel> {
    match v {
        Some(x) => Some(json_tree(*x)),
        None => None,
    }
}

/// The document that an optional owned JSON value holds.
pub open spec fn tree_of(v: Option<serde_json::Value>) -> Option<JsonModel> {
    match v {
        Some(x) => Some(json_tree(x)),
        None => None,
    }
}

/// The document that an optional answer denotes: `None` where there is no
/// answer or it is no JSON.
pub open spec fn answer_doc(body: Option<&str>) -> Option<JsonModel> {
    match body {
        Some(t) => json_parse(t@),
        None => None,
    }
}

/// The `openGraph` part of a metadata document.
pub open spec fn open_graph(meta: JsonModel) -> Option<JsonModel> {
    member(Some(meta), "openGraph"@)
}

/// The preview that a metadata document and an optional screenshot document
/// describe: `openGraph.title`, `openGraph.description`, `openGraph.image.url`
/// and `screenshotUrl`, each where it is present as a string.
pub open spec fn preview_of(meta: JsonModel, shot: Option<JsonModel>) -> PreviewModel {
    PreviewModel {
        title: text_of(member(open_graph(meta), "title"@)),
        description: text_of(member(open_graph(meta), "description"@)),
        image_url: text_of(member(member(open_graph(meta), "image"@), "url"@)),
        screenshot_url: text_of(member(shot, "screenshotUrl"@)),
    }
}

/// The member `key` of an optional JSON value.
fn member_at(v: Option<&serde_json::Value>, key: &str) -> (r: Option<serde_json::Value>)
    ensures
        tree_of(r) == member(opt_tree(v), key@),
{
    match v {
        Some(x) => json_member(x, key),
        None => None,
    }
}

/// The text of the member `key` of an optional JSON value, where it is a string.
fn text_at(v: Option<&serde_json::Value>, key: &str) -> (r: Option<String>)
    ensures
        opt_view(r) == text_of(member(opt_tree(v), key@)),
{
    match member_at(v, key) {
        Some(x) => json_text(&x),
        None => None,
    }
}

/// Reads a preview from the service's metadata document and, where one came,
/// its screenshot document. Missing parts are left out, never an error.
pub fn preview_from_documents(
    meta: &serde_json::Value,
    shot: Option<&serde_json::Value>,
) -> (r: LinkPreview)
    ensures
        r@ == preview_of(json_tree(*meta), opt_tree(shot)),
{
    let og = member_at(Some(meta), "openGraph");
    let image = member_at(og.as_ref(), "image");
    LinkPreview {
        title: text_at(og.as_ref(), "title"),
        description: text_at(og.as_ref(), "description"),
        image_url: text_at(image.as_ref(), "url"),
        screenshot_url: text_at(shot, "screenshotUrl"),
    }
}

/// The preview of a link from the service's answers: `metadata_body` is the
/// metadata answer (`None` where the request failed), `screenshot_body` the
/// screenshot answer. Only the metadata answer can make it fail; a missing or
/// unreadable screenshot answer leaves the screenshot out.
pub fn fetch_link_preview_data(metadata_body: Option<&str>, screenshot_body: Option<&str>) -> (r:
    Result<LinkPreview, FetchError>)
    ensures
        metadata_body is None ==> r == Err::<LinkPreview, FetchError>(FetchError::Network),
        metadata_body is Some && answer_doc(metadata_body) is None ==> r == Err::<
            LinkPreview,
            FetchError,
        >(FetchError::Parse),
        answer_doc(metadata_body) is Some ==> r is Ok && r->Ok_0@ == preview_of(
            answer_doc(metadata_body)->Some_0,
            answer_doc(screenshot_body),
        ),
{
    let text = match metadata_body {
        Some(t) => t,
        None => return Err(FetchError::Network),
    };
    let meta = match parse_json(text) {
        Some(m) => m,
        None => return Err(FetchError::Parse),
    };
    let shot = match screenshot_body {
        Some(t) => parse_json(t),
        None => None,
    };
    Ok(preview_from_documents(&meta, shot.as_ref()))
}

/// The address of the service's metadata lookup for `url`.
pub open spec fn metadata_request(url: Seq<char>, api_key: Seq<char>) -> Seq<char> {
    "https://opengraph.io/api/1.1/site/"@ + percent_encoded(url) + "?app_id="@ + api_key
}

/// The address of the service's screenshot capture for `url`.
pub open spec fn screenshot_request(url: Seq<char>, api_key: Seq<char>) -> Seq<char> {
    "https://opengraph.io/api/1.1/screenshot/"@ + percent_encoded(url) + "?app_id="@ + api_key
        + "&quality=60&dimensions=lg"@
}

/// The metadata lookup address for `url`, with the link percent-encoded and
/// the key as `app_id`.
pub fn metadata_request_url(url: &str, api_key: &str) -> (r: String)
    ensures
        r@ == metadata_request(url@, api_key@),
{
    let encoded = url_encode(url);
    let mut r = "https://opengraph.io/api/1.1/site/".to_owned();
    r.append(encoded.as_str());
    r.append("?app_id=");
    r.append(api_key);
    r
}

/// The screenshot capture address for `url`, with the link percent-encoded,
/// the key as `app_id`, and a fixed quality and size.
pub fn screenshot_request_url(url: &str, api_key: &str) -> (r: String)
    ensures
        r@ == screenshot_request(url@, api_key@),
{
    let encoded = url_encode(url);
    let mut r = "https://opengraph.io/api/1.1/screenshot/".to_owned();
    r.append(encoded.as_str());
    r.append("?app_id=");
    r.append(api_key);
    r.append("&quality=60&dimensions=lg");
    r
}

} // verus!
