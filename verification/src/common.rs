//! Request and response shapes of the two language-model services the
//! components talk to (a local Ollama server and the OpenAI chat API), and the
//! pure parts of talking to them.
use vstd::prelude::*;

verus! {

/// A generation request to an Ollama server.
#[derive(Clone, Debug)]
pub struct OllamaRequest {
    pub model: String,
    pub prompt: String,
    pub stream: bool,
}

/// A (non-streamed) generation reply of an Ollama server.
#[derive(Clone, Debug)]
pub struct OllamaResponse {
    pub model: String,
    pub response: String,
    pub created_at: String,
    pub done: bool,
    pub done_reason: String,
}

/// The model the worker asks.
pub open spec fn ollama_model() -> Seq<char> {
    "gemma3"@
}

/// The request that asks the Ollama model `gemma3` for a single, non-streamed
/// completion of `prompt`.
pub fn ollama_request(prompt: String) -> (r: OllamaRequest)
    ensures
        r.model@ == ollama_model(),
        r.prompt == prompt,
        !r.stream,
{
    OllamaRequest { model: "gemma3".to_string(), prompt, stream: false }
}

/// One message of a chat-completion request.
#[derive(Clone, Debug)]
pub struct OpenAIChatCompletionRequestMessage {
    pub role: String,
    pub content: String,
}

/// The role of the instructions that frame a conversation.
pub open spec fn system_role() -> Seq<char> {
    "system"@
}

/// The role of what the user says.
pub open spec fn user_role() -> Seq<char> {
    "user"@
}

impl OpenAIChatCompletionRequestMessage {
    /// A message with the given role and content.
    pub fn new(role: String, content: String) -> (m: OpenAIChatCompletionRequestMessage)
        ensures
            m.role == role,
            m.content == content,
    {
        OpenAIChatCompletionRequestMessage { role, content }
    }

    /// A message in the `user` role.
    pub fn new_user(content: String) -> (m: OpenAIChatCompletionRequestMessage)
        ensures
            m.role@ == user_role(),
            m.content == content,
    {
        OpenAIChatCompletionRequestMessage { role: "user".to_string(), content }
    }

    /// A message in the `system` role.
    pub fn new_system(content: String) -> (m: OpenAIChatCompletionRequestMessage)
        ensures
            m.role@ == system_role(),
            m.content == content,
    {
        OpenAIChatCompletionRequestMessage { role: "system".to_string(), content }
    }
}

/// A chat-completion request. The sampling temperature, a 32-bit float in the
/// wire format, is held as its IEEE 754 bit pattern (`f32::to_bits`).
#[derive(Clone, Debug)]
pub struct OpenAIRequest {
    pub model: String,
    pub messages: Vec<OpenAIChatCompletionRequestMessage>,
    pub stream: bool,
    pub temperature_bits: u32,
}

/// The bit pattern of the `f32` temperature 0.7 that the components ask with.
pub const TEMPERATURE_0_7_BITS: u32 = 0x3f33_3333u32;

impl OpenAIRequest {
    /// A request made of the given parts.
    pub fn new(
        model: String,
        messages: Vec<OpenAIChatCompletionRequestMessage>,
        stream: bool,
        temperature_bits: u32,
    ) -> (r: OpenAIRequest)
        ensures
            r.model == model,
            r.messages == messages,
            r.stream == stream,
            r.temperature_bits == temperature_bits,
    {
        OpenAIRequest { model, messages, stream, temperature_bits }
    }

    /// A request whose conversation is one system message followed by one
    /// user message.
    pub fn new_system_and_user(
        model: String,
        system_content: String,
        user_content: String,
        stream: bool,
        temperature_bits: u32,
    ) -> (r: OpenAIRequest)
        ensures
            r.model == model,
            r.messages@.len() == 2,
            r.messages@[0].role@ == system_role(),
            r.messages@[0].content == system_content,
            r.messages@[1].role@ == user_role(),
            r.messages@[1].content == user_content,
            r.stream == stream,
            r.temperature_bits == temperature_bits,
    {
        let mut messages: Vec<OpenAIChatCompletionRequestMessage> = Vec::new();
        messages.push(OpenAIChatCompletionRequestMessage::new_system(system_content));
        messages.push(OpenAIChatCompletionRequestMessage::new_user(user_content));
        OpenAIRequest { model, messages, stream, temperature_bits }
    }
}

/// The message of one choice of a chat-completion reply.
#[derive(Clone, Debug)]
pub struct OpenAIChatCompletionResponseMessage {
    pub role: String,
    pub content: String,
}

/// One choice of a chat-completion reply.
#[derive(Clone, Debug)]
pub struct OpenAIChatCompletionResponseChoice {
    pub index: usize,
    pub message: OpenAIChatCompletionResponseMessage,
    pub finish_reason: String,
}

/// A chat-completion reply.
#[derive(Clone, Debug)]
pub struct OpenAIResponse {
    pub id: String,
    pub model: String,
    pub object: String,
    pub choices: Vec<OpenAIChatCompletionResponseChoice>,
}

/// The error that a reply without any choice gives.
pub open spec fn no_message_error() -> Seq<char> {
    "No message in the response"@
}

impl OpenAIResponse {
    /// The content of the first choice, if there is one.
    pub fn get_message(&self) -> (m: Option<String>)
        ensures
            self.choices@.len() > 0 ==> m == Some(self.choices@[0].message.content),
            self.choices@.len() == 0 ==> m is None,
    {
        if self.choices.len() > 0 {
            Some(self.choices[0].message.content.clone())
        } else {
            None
        }
    }

    /// The content of the first choice, or an error when there is none. The
    /// error text, "No message in the response", is this library's own.
    pub fn get_message_or_err(&self) -> (m: Result<String, String>)
        ensures
            self.choices@.len() > 0 ==> m == Ok::<String, String>(self.choices@[0].message.content),
            self.choices@.len() == 0 ==> (m matches Err(e) && e@ == no_message_error()),
    {
        match self.get_message() {
            Some(content) => Ok(content),
            None => Err("No message in the response".to_string()),
        }
    }
}

/// The value of the `Authorization` header that carries `api_key`.
pub fn bearer_authorization(api_key: &str) -> (h: String)
    ensures
        h@ == "Bearer "@ + api_key@,
{
    let mut h = "Bearer ".to_string();
    h.append(api_key);
    h
}

/// The model the worker asks is `gemma3`; the two roles of a chat request are
/// `system` and `user`; a reply without choices gives "No message in the
/// response".
pub proof fn lemma_service_names()
    ensures
        ollama_model() == seq!['g', 'e', 'm', 'm', 'a', '3'],
        system_role() == seq!['s', 'y', 's', 't', 'e', 'm'],
        user_role() == seq!['u', 's', 'e', 'r'],
        no_message_error() == seq!['N', 'o', ' ', 'm', 'e', 's', 's', 'a', 'g', 'e', ' ', 'i', 'n', ' ', 't', 'h', 'e', ' ', 'r', 'e', 's', 'p', 'o', 'n', 's', 'e'],
{
    reveal_strlit("gemma3");
    reveal_strlit("system");
    reveal_strlit("user");
    reveal_strlit("No message in the response");
    assert(ollama_model() =~= seq!['g', 'e', 'm', 'm', 'a', '3']);
    assert(system_role() =~= seq!['s', 'y', 's', 't', 'e', 'm']);
    assert(user_role() =~= seq!['u', 's', 'e', 'r']);
    assert(no_message_error() =~= seq!['N', 'o', ' ', 'm', 'e', 's', 's', 'a', 'g', 'e', ' ', 'i', 'n', ' ', 't', 'h', 'e', ' ', 'r', 'e', 's', 'p', 'o', 'n', 's', 'e']);
}

} // verus!
