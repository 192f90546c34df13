//! The chat-completion request sent each cycle, and what is read from the reply.
use vstd::prelude::*;

use crate::models::{
    AppConfig, ImageObject, Message, MessageContent, OpenAIRequest, OpenAIResponse, OuterSchema,
    ResponseFormat,
};

verus! {

/// The instruction put in the user message before the frames.
pub const TASK_PROMPT: &'static str = "Perform the analysis in accordance with the system prompt.";

/// Path appended to the configured base URL.
pub const CHAT_COMPLETIONS_PATH: &'static str = "/chat/completions";

/// A text block holding exactly `text`.
pub open spec fn is_text_block(c: MessageContent, text: Seq<char>) -> bool {
    &&& c.content_type@ == "text"@
    &&& c.text matches Some(t) && t@ == text
    &&& c.image_url is None
}

/// An image block whose URL is exactly `url`.
pub open spec fn is_image_block(c: MessageContent, url: Seq<char>) -> bool {
    &&& c.content_type@ == "image_url"@
    &&& c.text is None
    &&& c.image_url matches Some(o) && o.url@ == url
}

/// A message from `role` with a single text block.
pub open spec fn is_text_message(m: Message, role: Seq<char>, text: Seq<char>) -> bool {
    &&& m.role@ == role
    &&& m.content@.len() == 1
    &&& is_text_block(m.content@[0], text)
}

/// A user message: the task as text, then one image block per frame, in order.
pub open spec fn is_task_message(m: Message, task: Seq<char>, frames: Seq<String>) -> bool {
    &&& m.role@ == "user"@
    &&& m.content@.len() == frames.len() + 1
    &&& is_text_block(m.content@[0], task)
    &&& forall|i: int|
        0 <= i < frames.len() ==> #[trigger] is_image_block(m.content@[i + 1], frames[i]@)
}

/// The endpoint that chat-completion requests are posted to.
pub fn chat_completions_url(api_base: &str) -> (r: String)
    ensures
        r@ == api_base@ + CHAT_COMPLETIONS_PATH@,
{
    String::from_str(api_base).concat(CHAT_COMPLETIONS_PATH)
}

/// The error text for a reply whose HTTP status is not a success: the status
/// and the body, verbatim.
pub fn api_error_message(status: &str, body: &str) -> (r: String)
    ensures
        r@ == "API error: "@ + status@ + " - "@ + body@,
{
    String::from_str("API error: ").concat(status).concat(" - ").concat(body)
}

fn text_block(text: String) -> (r: MessageContent)
    ensures
        is_text_block(r, text@),
{
    MessageContent { content_type: String::from_str("text"), text: Some(text), image_url: None }
}

/// Builds the request for one burst: a system message with the instruction, a
/// user message with the task followed by the frames in capture order, and a
/// strict JSON-schema response format.
pub fn build_openai_request(
    config: &AppConfig,
    screenshots: Vec<String>,
    task: String,
    system_prompt: String,
    schema: serde_json::Value,
) -> (r: OpenAIRequest)
    ensures
        r.model@ == config.model@,
        r.messages@.len() == 2,
        is_text_message(r.messages@[0], "system"@, system_prompt@),
        is_task_message(r.messages@[1], task@, screenshots@),
        r.response_format matches Some(f) && f.content_type@ == "json_schema"@
            && f.json_schema.name@ == "schema"@ && f.json_schema.strict && f.json_schema.schema
            == schema,
{
    let system_message = Message {
        role: String::from_str("system"),
        content: vec![text_block(system_prompt)],
    };
    let mut user_content: Vec<MessageContent> = vec![text_block(task)];
    let n = screenshots.len();
    let mut i: usize = 0;
    while i < n
        invariant
            i <= n,
            n == screenshots@.len(),
            user_content@.len() == i + 1,
            is_text_block(user_content@[0], task@),
            forall|j: int|
                0 <= j < i ==> #[trigger] is_image_block(user_content@[j + 1], screenshots@[j]@),
        decreases n - i,
    {
        let block = MessageContent {
            content_type: String::from_str("image_url"),
            text: None,
            image_url: Some(ImageObject { url: screenshots[i].clone() }),
        };
        user_content.push(block);
        i = i + 1;
    }
    let user_message = Message { role: String::from_str("user"), content: user_content };
    OpenAIRequest {
        model: config.model.clone(),
        messages: vec![system_message, user_message],
        response_format: Some(
            ResponseFormat {
                content_type: String::from_str("json_schema"),
                json_schema: OuterSchema { name: String::from_str("schema"), strict: true, schema },
            },
        ),
    }
}

/// The content of the first choice of a reply, where there is one.
pub fn first_choice_content(response: &OpenAIResponse) -> (r: Option<String>)
    ensures
        r.is_some() == (response.choices@.len() > 0),
        r matches Some(c) ==> c@ == response.choices@[0].message.content@,
{
    if response.choices.len() == 0 {
        None
    } else {
        Some(response.choices[0].message.content.clone())
    }
}

} // verus!
