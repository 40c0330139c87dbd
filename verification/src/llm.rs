//! Messages exchanged with the language model and its errors.

use vstd::prelude::*;

verus! {

/// A failed call to the language model.
#[derive(Debug, Clone, PartialEq, Eq)]
pub enum LlmError {
    Network(String),
    Provider(String),
}

/// The display text of a language-model error.
pub open spec fn llm_error_text(e: LlmError) -> Seq<char> {
    match e {
        LlmError::Network(m) => "Network error: "@ + m@,
        LlmError::Provider(m) => "Provider error: "@ + m@,
    }
}

impl LlmError {
    /// The error's display text.
    pub fn message(&self) -> (s: String)
        ensures
            s@ == llm_error_text(*self),
    {
        match self {
            LlmError::Network(m) => {
                let mut s = "Network error: ".to_owned();
                s.append(m.as_str());
                s
            },
            LlmError::Provider(m) => {
                let mut s = "Provider error: ".to_owned();
                s.append(m.as_str());
                s
            },
        }
    }
}

/// One chat message sent to the model.
#[derive(Debug, Clone, PartialEq, Eq)]
pub struct LlmMessage {
    pub role: String,
    pub content: String,
}

impl LlmMessage {
    /// The message as role and content texts.
    pub open spec fn view(&self) -> (Seq<char>, Seq<char>) {
        (self.role@, self.content@)
    }
}

/// The model's answer.
#[derive(Debug, Clone, PartialEq, Eq)]
pub struct LlmResponse {
    pub content: String,
    pub prompt_tokens: Option<i32>,
    pub completion_tokens: Option<i32>,
}

/// The chat endpoint of an Ollama server at `base_url`.
pub fn ollama_chat_url(base_url: &str) -> (url: String)
    ensures
        url@ == base_url@ + "/api/chat"@,
{
    let mut url = base_url.to_owned();
    url.append("/api/chat");
    url
}

/// An HTTP status code of the success class (`200` to `299`), as
/// `StatusCode::is_success` reads it.
pub open spec fn success_status(code: u16) -> bool {
    200 <= code <= 299
}

/// Whether the model server's answer has a success status.
pub fn is_success_status(code: u16) -> (b: bool)
    ensures
        b == success_status(code),
{
    200 <= code && code <= 299
}

/// The error for an answer whose HTTP status is not a success: the status
/// text and the answer's body.
pub fn ollama_status_error(status: &str, body: &str) -> (e: LlmError)
    ensures
        e matches LlmError::Provider(m) && m@ == "Status "@ + status@ + ": "@ + body@,
{
    let mut m = "Status ".to_owned();
    m.append(status);
    m.append(": ");
    m.append(body);
    LlmError::Provider(m)
}

} // verus!
