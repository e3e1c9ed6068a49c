use link_preview_bot::{
    build_embed, fetch_link_preview_data, metadata_request_url, preview_from_documents,
    screenshot_request_url, FetchError, LinkPreview, EMBED_COLOR,
};

const META: &str = r#"{"openGraph":{"title":"T","description":"D","image":{"url":"I"}}}"#;

fn doc(text: &str) -> serde_json::Value {
    serde_json::from_str(text).unwrap()
}

#[test]
fn metadata_request_encodes_link() {
    assert_eq!(
        metadata_request_url("https://a.com/x?y=1", "KEY"),
        "https://opengraph.io/api/1.1/site/https%3A%2F%2Fa.com%2Fx%3Fy%3D1?app_id=KEY"
    );
}

#[test]
fn screenshot_request_encodes_link() {
    assert_eq!(
        screenshot_request_url("http://b.io/a b", "K"),
        "https://opengraph.io/api/1.1/screenshot/http%3A%2F%2Fb.io%2Fa%20b?app_id=K&quality=60&dimensions=lg"
    );
}

#[test]
fn preview_reads_open_graph_fields() {
    let p = preview_from_documents(&doc(META), None);
    assert_eq!(p.title.as_deref(), Some("T"));
    assert_eq!(p.description.as_deref(), Some("D"));
    assert_eq!(p.image_url.as_deref(), Some("I"));
    assert_eq!(p.screenshot_url, None);
}

#[test]
fn preview_reads_screenshot() {
    let shot = doc(r#"{"screenshotUrl":"S"}"#);
    let p = preview_from_documents(&doc(META), Some(&shot));
    assert_eq!(p.screenshot_url.as_deref(), Some("S"));
    assert_eq!(p.image_url.as_deref(), Some("I"));
}

#[test]
fn preview_skips_fields_that_are_no_strings() {
    let p = preview_from_documents(&doc(r#"{"openGraph":{"title":3,"image":"I"}}"#), None);
    assert_eq!(p.title, None);
    assert_eq!(p.description, None);
    assert_eq!(p.image_url, None);
}

#[test]
fn metadata_without_open_graph_gives_empty_preview() {
    let p = fetch_link_preview_data(Some(r#"{"hybridGraph":{"title":"X"}}"#), None).unwrap();
    assert_eq!(p.title, None);
    assert_eq!(p.description, None);
    assert_eq!(p.image_url, None);
    assert_eq!(p.screenshot_url, None);
}

#[test]
fn missing_metadata_answer_is_network_error() {
    assert_eq!(
        fetch_link_preview_data(None, Some(r#"{"screenshotUrl":"S"}"#)).unwrap_err(),
        FetchError::Network
    );
}

#[test]
fn unreadable_metadata_answer_is_parse_error() {
    assert_eq!(
        fetch_link_preview_data(Some("<html>"), None).unwrap_err(),
        FetchError::Parse
    );
}

#[test]
fn unreadable_screenshot_answer_leaves_screenshot_out() {
    let p = fetch_link_preview_data(Some(META), Some("not json")).unwrap();
    assert_eq!(p.title.as_deref(), Some("T"));
    assert_eq!(p.screenshot_url, None);
}

#[test]
fn fetched_preview_has_screenshot() {
    let p = fetch_link_preview_data(Some(META), Some(r#"{"screenshotUrl":"S"}"#)).unwrap();
    assert_eq!(p.screenshot_url.as_deref(), Some("S"));
}

#[test]
fn embed_falls_back_to_page_image() {
    let p = fetch_link_preview_data(Some(META), None).unwrap();
    let e = build_embed(&p, "https://a.com");
    assert_eq!(e.title, "T");
    assert_eq!(e.description, "D\n\nFor more information, [click here](https://a.com)");
    assert!(e.description.ends_with("(https://a.com)"));
    assert_eq!(e.thumbnail_url, "I");
    assert_eq!(e.image_url, "I");
    assert_eq!(e.color, EMBED_COLOR);
    assert_eq!(e.color, 0x3498db);
    assert_eq!(e.source_url, "https://a.com");
}

#[test]
fn embed_prefers_screenshot() {
    let p = fetch_link_preview_data(Some(META), Some(r#"{"screenshotUrl":"S"}"#)).unwrap();
    let e = build_embed(&p, "https://a.com");
    assert_eq!(e.image_url, "S");
    assert_eq!(e.thumbnail_url, "I");
}

#[test]
fn embed_ignores_empty_screenshot() {
    let p = LinkPreview {
        title: None,
        description: None,
        image_url: Some("I".to_string()),
        screenshot_url: Some(String::new()),
    };
    let e = build_embed(&p, "u");
    assert_eq!(e.image_url, "I");
}

#[test]
fn embed_of_empty_preview_has_empty_parts() {
    let p = LinkPreview { title: None, description: None, image_url: None, screenshot_url: None };
    let e = build_embed(&p, "https://b.io");
    assert_eq!(e.title, "");
    assert_eq!(e.description, "\n\nFor more information, [click here](https://b.io)");
    assert_eq!(e.thumbnail_url, "");
    assert_eq!(e.image_url, "");
}
