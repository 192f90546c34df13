//! The data that flows through one analysis cycle.
use vstd::prelude::*;

verus! {

/// An opaque JSON value, carried through unchanged (the response schema, extra
/// response fields).
#[verifier::external_type_specification]
#[verifier::external_body]
pub struct ExJsonValue(serde_json::Value);

/// Settings loaded once at startup and never changed afterwards.
pub struct AppConfig {
    /// Zero-based index of the monitor to capture.
    pub monitor_to_capture: usize,
    /// Base URL of the inference service, without `/chat/completions`.
    pub api_base: String,
    /// Bearer token sent with each request.
    pub api_key: String,
    /// Model identifier put into each request.
    pub model: String,
    /// Sound played with each notification, when the file exists.
    pub notification_sound_path: String,
    /// Whether to notify when the countdown was already over on arrival.
    pub send_notification_overtime: bool,
    /// Estimates above this many milliseconds are taken as spurious.
    pub ignore_if_time_remaining_higher_than_ms: i64,
}

/// A chat-completion request.
pub struct OpenAIRequest {
    pub model: String,
    pub messages: Vec<Message>,
    pub response_format: Option<ResponseFormat>,
}

/// Asks the service for output constrained by a JSON schema.
pub struct ResponseFormat {
    /// Serialised under the key `type`.
    pub content_type: String,
    pub json_schema: OuterSchema,
}

/// A named schema with its strictness flag.
pub struct OuterSchema {
    pub name: String,
    pub strict: bool,
    pub schema: serde_json::Value,
}

/// One message of the conversation.
pub struct Message {
    pub role: String,
    pub content: Vec<MessageContent>,
}

/// One block of a message: a text or an image.
pub struct MessageContent {
    /// Serialised under the key `type`: `text` or `image_url`.
    pub content_type: String,
    pub text: Option<String>,
    pub image_url: Option<ImageObject>,
}

/// An image given by URL (here always a data URI).
pub struct ImageObject {
    pub url: String,
}

/// The service's reply to a chat-completion request.
pub struct OpenAIResponse {
    pub id: String,
    pub object: String,
    pub created: u64,
    pub model: String,
    pub choices: Vec<Choice>,
    pub usage: Option<Usage>,
    pub stats: Option<serde_json::Value>,
    pub system_fingerprint: Option<String>,
}

/// One completion choice.
pub struct Choice {
    pub index: u32,
    pub message: AssistantMessage,
    pub finish_reason: Option<String>,
    pub logprobs: Option<serde_json::Value>,
}

/// The assistant's message; `content` holds the structured answer as JSON text.
pub struct AssistantMessage {
    pub role: String,
    pub content: String,
}

/// Token accounting reported by the service.
pub struct Usage {
    pub prompt_tokens: Option<u32>,
    pub completion_tokens: Option<u32>,
    pub total_tokens: Option<u32>,
}

/// The model's structured judgement of one burst of frames.
pub struct ModelResponse {
    pub image_comparison_and_analysis: String,
    /// Whether the frames show a countdown in progress. When false, the
    /// remaining time is not to be trusted.
    pub images_are_relevant: bool,
    pub reasoning: String,
    /// Remaining time reported by the model, in milliseconds.
    pub time_remaining_ms: Option<i64>,
}

} // verus!
