//! What the bot does with a message: answer the help command, or preview
//! each link that the message holds.

use vstd::prelude::*;
use crate::extract::{extract_urls_from_message, string_views, urls_in};
use crate::preview::{
    metadata_request,
    metadata_request_url,
    screenshot_request,
    screenshot_request_url,
};

verus! {

/// The message that asks for help.
pub const HELP_COMMAND: &'static str = "!help";

/// The answer to the help command.
pub const HELP_MESSAGE: &'static str = "
Hello there, **Welcome to Real Dev Squad!**

If you are new here, head to the `#lift-simulation` channel for your first task.

❓ Something wrong?
➡️ You can flag an admin with @admin

Need assistance or have specific questions? Feel free to ask our friendly community members or moderators. Enjoy your time here at Real Dev Squad!

I hope that resolves your issue! For more information about our bot's commands, type `!help` in any channel.

— HelpBot 🤖
";

/// The fixed text that answers the help command.
pub fn help_command() -> (r: &'static str)
    ensures
        r@ == HELP_MESSAGE@,
{
    HELP_MESSAGE
}

/// The two requests to the Open Graph service that preview one link.
#[derive(Debug, Clone)]
pub struct PreviewRequest {
    /// The link as it stands in the message.
    pub source_url: String,
    /// Where its metadata is looked up.
    pub metadata_url: String,
    /// Where its screenshot is taken.
    pub screenshot_url: String,
}

/// Whether `r` asks for the preview of `link` with the key `api_key`.
pub open spec fn requests_preview(r: PreviewRequest, link: Seq<char>, api_key: Seq<char>) -> bool {
    &&& r.source_url@ == link
    &&& r.metadata_url@ == metadata_request(link, api_key)
    &&& r.screenshot_url@ == screenshot_request(link, api_key)
}

/// Whether `rs` asks for the previews of `links`, one each, in their order.
pub open spec fn requests_previews(
    rs: Seq<PreviewRequest>,
    links: Seq<Seq<char>>,
    api_key: Seq<char>,
) -> bool {
    &&& rs.len() == links.len()
    &&& forall|i: int| 0 <= i < rs.len() ==> requests_preview(#[trigger] rs[i], links[i], api_key)
}

/// The requests that preview the links of `content`: one for each link, in
/// the order of the links, repeated ones included.
pub fn create_previews(content: &str, api_key: &str) -> (r: Vec<PreviewRequest>)
    ensures
        requests_previews(r@, urls_in(content@), api_key@),
{
    let links = extract_urls_from_message(content);
    let mut out: Vec<PreviewRequest> = Vec::new();
    for i in 0..links.len()
        invariant
            string_views(links@) == urls_in(content@),
            out@.len() == i,
            forall|k: int|
                0 <= k < i ==> requests_preview(#[trigger] out@[k], links@[k]@, api_key@),
    {
        let link = &links[i];
        out.push(
            PreviewRequest {
                source_url: link.clone(),
                metadata_url: metadata_request_url(link.as_str(), api_key),
                screenshot_url: screenshot_request_url(link.as_str(), api_key),
            },
        );
    }
    proof {
        assert forall|k: int| 0 <= k < out@.len() implies requests_preview(
            #[trigger] out@[k],
            urls_in(content@)[k],
            api_key@,
        ) by {
            assert(string_views(links@)[k] == links@[k]@);
        }
    }
    out
}

/// What to do with a message.
#[derive(Debug, Clone)]
pub enum Route {
    /// Answer with the help text.
    Help,
    /// Preview the links of the message, one request each.
    Previews(Vec<PreviewRequest>),
}

/// Routes a message: the exact help command is answered with the help text
/// and nothing else; any other message gets one preview per link it holds
/// (possibly none).
pub fn route_message(content: &str, api_key: &str) -> (r: Route)
    ensures
        r is Help <==> content@ == HELP_COMMAND@,
        r is Previews ==> requests_previews(r->Previews_0@, urls_in(content@), api_key@),
{
    if content.to_owned() == HELP_COMMAND.to_owned() {
        Route::Help
    } else {
        Route::Previews(create_previews(content, api_key))
    }
}

} // verus!
