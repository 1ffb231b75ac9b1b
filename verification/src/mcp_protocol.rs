//! The protocol spoken with the language-model gateway: a request
//! carrying a conversation history, and the generated answer.

use vstd::prelude::*;

verus! {

use crate::envelope::AgentResponse;

/// A single turn of the conversation with the language model; the role
/// is `system`, `user` or `assistant`.
#[derive(Debug, Clone)]
pub struct McpMessageTurn {
    pub role: String,
    pub content: String,
}

/// The request an agent sends to the gateway.  The model name may
/// carry a provider prefix; with no explicit provider the gateway
/// decides.  The sampling temperature is given in thousandths, absent
/// to accept the gateway's default.
#[derive(Debug, Clone)]
pub struct McpRequest {
    pub model: String,
    pub provider: Option<String>,
    pub messages: Vec<McpMessageTurn>,
    pub temperature: Option<u32>,
}

/// The gateway's answer: the generated text, and token counts for the
/// prompt and the completion where the provider reports them.
#[derive(Debug, Clone)]
pub struct McpResponse {
    pub content: String,
    pub token_usage: Option<(u32, u32)>,
}

/// The sampling temperature the summarizer asks for, in thousandths.
pub const SUMMARY_TEMPERATURE: u32 = 700;

/// Builds the summarizer's gateway request for a file's content: a
/// fixed system instruction followed by the content as the user turn,
/// with the summarizer's sampling temperature.
pub fn build_summary_request(model: String, provider: Option<String>, content: String) -> (r:
    McpRequest)
    ensures
        r.model == model,
        r.provider == provider,
        r.messages@.len() == 2,
        r.messages@[0].role@ == "system"@,
        r.messages@[0].content@ == "Eres un experto en resumir textos de forma concisa."@,
        r.messages@[1].role@ == "user"@,
        r.messages@[1].content == content,
        r.temperature == Some(SUMMARY_TEMPERATURE),
{
    let mut messages: Vec<McpMessageTurn> = Vec::new();
    messages.push(
        McpMessageTurn {
            role: "system".to_owned(),
            content: "Eres un experto en resumir textos de forma concisa.".to_owned(),
        },
    );
    messages.push(McpMessageTurn { role: "user".to_owned(), content });
    McpRequest { model, provider, messages, temperature: Some(SUMMARY_TEMPERATURE) }
}

/// Reads the summarizer's result out of the gateway's enveloped
/// answer: the generated text on success, and the gateway's error
/// message, verbatim, on failure.
pub fn extract_summary(resp: AgentResponse<McpResponse>) -> (r: Result<String, String>)
    ensures
        match resp {
            AgentResponse::Success(m) => r == Ok::<String, String>(m.content),
            AgentResponse::Error(e) => r == Err::<String, String>(e),
        },
{
    match resp {
        AgentResponse::Success(m) => Ok(m.content),
        AgentResponse::Error(e) => Err(e),
    }
}

} // verus!
