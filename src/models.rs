//! Request and response shapes of the chat-completion backend.
use vstd::prelude::*;
use vstd::string::*;

verus! {

/// Number of tokens reported when the backend leaves a usage field out.
pub fn default_token_count() -> (r: u32)
    ensures
        r == 1,
{
    1
}

/// A non-streaming completion as the backend reports it.
#[derive(Debug)]
pub struct ChatCompletionResponse {
    pub id: String,
    pub object: String,
    pub created: u64,
    pub model: String,
    pub choices: Vec<ChatCompletionChoice>,
    pub usage: Usage,
}

#[derive(Debug)]
pub struct ChatCompletionChoice {
    pub index: u32,
    pub message: ChatCompletionMessage,
    pub finish_reason: String,
}

#[derive(Debug)]
pub struct ChatCompletionMessage {
    pub role: String,
    pub content: String,
}

/// Token accounting of one completion.
#[derive(Debug, Clone, Copy, PartialEq, Eq, Structural)]
pub struct Usage {
    pub prompt_tokens: u32,
    pub completion_tokens: u32,
    pub total_tokens: u32,
}

impl Default for Usage {
    fn default() -> (r: Usage)
        ensures
            r == (Usage { prompt_tokens: 0, completion_tokens: 0, total_tokens: 0 }),
    {
        Usage { prompt_tokens: 0, completion_tokens: 0, total_tokens: 0 }
    }
}

impl ChatCompletionResponse {
    /// A response with every field empty.
    pub fn empty() -> (r: ChatCompletionResponse)
        ensures
            r.id@.len() == 0,
            r.object@.len() == 0,
            r.created == 0,
            r.model@.len() == 0,
            r.choices@.len() == 0,
            r.usage == (Usage { prompt_tokens: 0, completion_tokens: 0, total_tokens: 0 }),
    {
        ChatCompletionResponse {
            id: String::new(),
            object: String::new(),
            created: 0,
            model: String::new(),
            choices: Vec::new(),
            usage: Usage::default(),
        }
    }
}

/// The outcome of one streamed chat request.
pub struct ChatResponse {
    /// The final merged answer.
    pub content: String,
    pub raw_response: ChatCompletionResponse,
    /// Every event of the stream as (name, data), in arrival order.
    pub events: Vec<(String, String)>,
}

/// A rendered answer stored in a session.
pub struct ImageResponse {
    pub image_path: String,
    pub session_id: String,
    pub markdown_text: String,
}

/// The free-form variables a request may carry, passed through untouched.
#[verifier::external_type_specification]
#[verifier::external_body]
pub struct ExJsonValue(serde_json::Value);

/// Who wrote a message.
#[derive(Debug, Clone, Copy, PartialEq, Eq, Structural)]
pub enum Role {
    User,
    Assistant,
    System,
}

/// One part of a message with several parts.
#[derive(Debug, Clone)]
pub enum ContentPart {
    Text(String),
    ImageUrl(String),
}

/// The content of a message: plain text, or an ordered list of parts.
#[derive(Debug, Clone)]
pub enum MessageContent {
    PlainText(String),
    Parts(Vec<ContentPart>),
}

/// One message of a chat request.
#[derive(Debug, Clone)]
pub struct FastGPTMessage {
    pub role: Role,
    pub content: MessageContent,
}

/// The body of a chat request. Absent identifiers are left out of the
/// serialised form rather than written as null.
#[derive(Debug)]
pub struct FastGPTChatRequest {
    pub chat_id: Option<String>,
    pub response_chat_item_id: Option<String>,
    pub stream: bool,
    pub detail: bool,
    pub variables: Option<serde_json::Value>,
    pub messages: Vec<FastGPTMessage>,
}

/// A part as a mathematical value: `true` for text, `false` for an image link.
pub open spec fn part_view(p: ContentPart) -> (bool, Seq<char>) {
    match p {
        ContentPart::Text(t) => (true, t@),
        ContentPart::ImageUrl(u) => (false, u@),
    }
}

/// The parts of a question: its text first, then one part per image link.
pub open spec fn question_parts(question: Seq<char>, image_urls: Seq<Seq<char>>) -> Seq<(bool, Seq<char>)> {
    seq![(true, question)] + image_urls.map_values(|u: Seq<char>| (false, u))
}

/// The user message asking `question` about the images at `image_urls`.
pub fn user_question(question: &str, image_urls: &Vec<String>) -> (r: FastGPTMessage)
    ensures
        r.role == Role::User,
        r.content matches MessageContent::Parts(parts) && parts@.map_values(|p: ContentPart| part_view(p))
            == question_parts(question@, image_urls.deep_view()),
{
    let mut parts: Vec<ContentPart> = Vec::new();
    parts.push(ContentPart::Text(question.to_owned()));
    let mut i: usize = 0;
    while i < image_urls.len()
        invariant
            i <= image_urls@.len(),
            parts@.map_values(|p: ContentPart| part_view(p)) == question_parts(
                question@,
                image_urls.deep_view().subrange(0, i as int),
            ),
        decreases image_urls@.len() - i,
    {
        let u = image_urls[i].clone();
        assert(u@ == image_urls.deep_view()[i as int]);
        let ghost before = parts@;
        let ghost urls = image_urls.deep_view();
        parts.push(ContentPart::ImageUrl(u));
        assert(parts@.map_values(|p: ContentPart| part_view(p)) =~= before.map_values(
            |p: ContentPart| part_view(p),
        ).push((false, urls[i as int])));
        assert(question_parts(question@, urls.subrange(0, i + 1)) =~= question_parts(
            question@,
            urls.subrange(0, i as int),
        ).push((false, urls[i as int])));
        i = i + 1;
    }
    assert(image_urls.deep_view().subrange(0, image_urls@.len() as int) =~= image_urls.deep_view());
    FastGPTMessage { role: Role::User, content: MessageContent::Parts(parts) }
}

impl FastGPTChatRequest {
    /// A request over a non-empty conversation.
    pub fn new(
        chat_id: Option<String>,
        response_chat_item_id: Option<String>,
        messages: Vec<FastGPTMessage>,
        stream: bool,
        detail: bool,
        variables: Option<serde_json::Value>,
    ) -> (r: FastGPTChatRequest)
        requires
            messages@.len() > 0,
        ensures
            r.chat_id == chat_id,
            r.response_chat_item_id == response_chat_item_id,
            r.messages == messages,
            r.stream == stream,
            r.detail == detail,
            r.variables == variables,
    {
        FastGPTChatRequest { chat_id, response_chat_item_id, stream, detail, variables, messages }
    }
}

/// The value of the `Authorization` header for a bearer token.
pub fn bearer_value(token: &str) -> (r: String)
    ensures
        r@ == "Bearer "@ + token@,
{
    let mut r = "Bearer ".to_owned();
    r.append(token);
    r
}

} // verus!
