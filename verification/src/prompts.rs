//! Construction of the chat-completion messages sent to the
//! text-generation backend: the two fixed system instructions, and the
//! per-link user messages for the summarization and tagging stages.

use vstd::prelude::*;
use vstd::string::StringExecFns;

use crate::models::Link;

verus! {

/// Who a chat message speaks as.
#[derive(Clone, Copy, Debug, PartialEq, Eq, Structural)]
pub enum MessageRole {
    System,
    User,
}

/// One message of a chat-completion request.
#[derive(Clone, Debug, PartialEq, Eq)]
pub struct ChatMessage {
    pub role: MessageRole,
    pub content: String,
}

/// A complete chat-completion request. The transport layer sends it with a
/// near-zero temperature, so repeated runs on identical input stay close;
/// that determinism is the backend's affair, not promised here.
#[derive(Clone, Debug, PartialEq, Eq)]
pub struct ChatRequest {
    pub model: String,
    pub messages: Vec<ChatMessage>,
}

/// The fixed system instruction of the summarization stage.
pub open spec fn summary_instruction() -> Seq<char> {
    "You receive complete article content as input. You must condense it to 1-3 sentences maximum. Only return the answer."@
}

/// The fixed system instruction of the tagging stage.
pub open spec fn tagging_instruction() -> Seq<char> {
    r#"
You are a bot in a read-it-later app and your responsibility is to help with automatic tagging.
Please analyze the text and suggest relevant tags that describe its key themes, topics, and main ideas. Follow strictly the following rules:
- Aim for a variety of tags, including broad categories, specific keywords, and potential sub-genres.
- Write tags in french.
- If it's a famous website you may also include a tag for the website. If the tag is not generic enough, don't include it.
- The content can include text for cookie consent and privacy policy, ignore those while tagging.
- Aim for 3-5 short and concise tags.
- If there are no good tags, leave the array empty.
You must respond as a single line JSON string (do not add extra lines) which is an array of string tags."#@
}

/// What the summarization stage shows the backend for one link: name, url
/// and the raw text content (empty when the store holds none), one per line.
pub open spec fn spec_summary_input(l: Link) -> Seq<char> {
    l.name@ + "\n"@ + l.url@ + "\n"@ + (match l.text_content {
        Some(t) => t@,
        None => Seq::<char>::empty(),
    })
}

/// What the tagging stage shows the backend for one link: name, url and the
/// summary the previous stage produced — never the raw text content.
pub open spec fn spec_tag_input(l: Link, summary: Seq<char>) -> Seq<char> {
    l.name@ + "\n"@ + l.url@ + "\n"@ + summary
}

/// The system message that asks for a short summary.
pub fn build_summary() -> (m: ChatMessage)
    ensures
        m.role is System,
        m.content@ == summary_instruction(),
{
    ChatMessage {
        role: MessageRole::System,
        content: String::from_str(
            "You receive complete article content as input. You must condense it to 1-3 sentences maximum. Only return the answer.",
        ),
    }
}

/// The system message that asks for single-line JSON tag suggestions.
pub fn build_tagging() -> (m: ChatMessage)
    ensures
        m.role is System,
        m.content@ == tagging_instruction(),
{
    ChatMessage {
        role: MessageRole::System,
        content: String::from_str(
            r#"
You are a bot in a read-it-later app and your responsibility is to help with automatic tagging.
Please analyze the text and suggest relevant tags that describe its key themes, topics, and main ideas. Follow strictly the following rules:
- Aim for a variety of tags, including broad categories, specific keywords, and potential sub-genres.
- Write tags in french.
- If it's a famous website you may also include a tag for the website. If the tag is not generic enough, don't include it.
- The content can include text for cookie consent and privacy policy, ignore those while tagging.
- Aim for 3-5 short and concise tags.
- If there are no good tags, leave the array empty.
You must respond as a single line JSON string (do not add extra lines) which is an array of string tags."#,
        ),
    }
}

/// The user message of the summarization stage.
pub fn for_link(link: &Link) -> (m: ChatMessage)
    ensures
        m.role is User,
        m.content@ == spec_summary_input(*link),
{
    let mut content = String::new();
    content.append(link.name.as_str());
    content.append("\n");
    content.append(link.url.as_str());
    content.append("\n");
    match &link.text_content {
        Some(t) => content.append(t.as_str()),
        None => (),
    }
    proof {
        assert(content@ =~= spec_summary_input(*link));
    }
    ChatMessage { role: MessageRole::User, content }
}

/// The user message of the tagging stage, built from the summary alone.
pub fn for_link_with_summary(link: &Link, summary: String) -> (m: ChatMessage)
    ensures
        m.role is User,
        m.content@ == spec_tag_input(*link, summary@),
{
    let mut content = String::new();
    content.append(link.name.as_str());
    content.append("\n");
    content.append(link.url.as_str());
    content.append("\n");
    content.append(summary.as_str());
    proof {
        assert(content@ =~= spec_tag_input(*link, summary@));
    }
    ChatMessage { role: MessageRole::User, content }
}

} // verus!
