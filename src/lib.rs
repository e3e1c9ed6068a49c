//! A chat bot's core: finding the links in a message, asking an Open Graph
//! service about each, reading a preview from its answers, and laying that
//! preview out as an embed. Sending and receiving are left to the caller.

mod embed;
mod extract;
mod json;
mod preview;
mod router;

pub use embed::{build_embed, PreviewEmbed, EMBED_COLOR};
pub use extract::extract_urls_from_message;
pub use preview::{
    fetch_link_preview_data,
    metadata_request_url,
    preview_from_documents,
    screenshot_request_url,
    FetchError,
    LinkPreview,
};
pub use router::{
    create_previews,
    help_command,
    route_message,
    PreviewRequest,
    Route,
    HELP_COMMAND,
    HELP_MESSAGE,
};
