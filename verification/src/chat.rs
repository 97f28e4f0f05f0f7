//! The chat service: what is asked of the language model for a question,
//! where the answer is recorded, and the messages pushed to the client's
//! event stream.
use vstd::prelude::*;

use async_openai::types::{Choice, CompletionFinishReason, CreateCompletionResponse};

use crate::conversation::{is_simple_v4_uuid, new_request_id};
use crate::requests::AskReq;

verus! {

#[verifier::external_type_specification]
#[verifier::external_body]
pub struct ExSerdeJsonError(serde_json::Error);

/// The connection settings of the Azure OpenAI deployment answering chats.
#[derive(Debug, Clone, PartialEq, Eq)]
pub struct AzureSettings {
    pub api_base: String,
    pub api_version: String,
    pub deployment_id: String,
    pub api_key: String,
}

/// A chat completion request: a system prompt, then the user's question.
#[derive(Debug, Clone, PartialEq, Eq)]
pub struct ChatRequestPlan {
    pub model: String,
    pub max_tokens: u16,
    pub system_prompt: String,
    pub user_prompt: String,
}

/// A streamed text completion request for a prompt.
#[derive(Debug, Clone, PartialEq, Eq)]
pub struct CompletionStreamPlan {
    pub model: String,
    pub n: u8,
    pub prompt: String,
    pub stream: bool,
    pub max_tokens: u16,
}

/// Where the answer to a question is recorded.
#[derive(Debug, Clone, Copy, PartialEq, Eq, Structural)]
pub struct PersistPlan {
    /// Open a new conversation for the question and record the answer in it.
    pub open_new_conversation: bool,
    /// The conversation in which the answer is then recorded (again); none
    /// where the request named none, which the service cannot complete.
    pub record_in: Option<i64>,
}

/// Why a completion ended, as reported to the client.
#[derive(Debug, Clone, Copy, PartialEq, Eq, Structural)]
pub enum FinishReason {
    Stop,
    Length,
    ContentFilter,
}

/// The JSON text that `serde_json::to_string` writes for an `async_openai`
/// `CreateCompletionResponse` with the given id, creation time, model and
/// object, a single choice with the given text, index and finish reason, and
/// neither log probabilities, system fingerprint nor usage.
pub uninterp spec fn spec_completion_response_json(
    id: Seq<char>,
    text: Seq<char>,
    index: u32,
    finish_reason: FinishReason,
    created: u32,
    model: Seq<char>,
    object: Seq<char>,
) -> Seq<char>;

/// Serializes a one-choice completion response (`serde_json::to_string` of an
/// `async_openai::types::CreateCompletionResponse`). The text is the
/// serialization named by `spec_completion_response_json`, which depends on
/// the arguments alone. The call succeeds: `serde_json::to_string` fails only
/// where a `Serialize` impl decides to fail or a map has non-string keys, and
/// the value built here holds only strings, integers, a vector, absent options
/// and a unit enum variant, all with derived impls, and no map.
#[verifier::external_body]
fn completion_response_json(
    id: String,
    text: String,
    index: u32,
    finish_reason: FinishReason,
    created: u32,
    model: String,
    object: String,
) -> (json: Result<String, serde_json::Error>)
    ensures
        json is Ok,
        json matches Ok(j) ==> j@ == spec_completion_response_json(
            id@,
            text@,
            index,
            finish_reason,
            created,
            model@,
            object@,
        ),
{
    let finish_reason = match finish_reason {
        FinishReason::Stop => CompletionFinishReason::Stop,
        FinishReason::Length => CompletionFinishReason::Length,
        FinishReason::ContentFilter => CompletionFinishReason::ContentFilter,
    };
    let choice = Choice { text, index, logprobs: None, finish_reason: Some(finish_reason) };
    let response = CreateCompletionResponse {
        id, choices: vec![choice], created, model, system_fingerprint: None, object, usage: None,
    };
    serde_json::to_string(&response)
}

/// The API version the deployment is addressed with.
pub fn azure_api_version() -> (version: &'static str)
    ensures
        version@ == "2023-03-15-preview"@,
{
    "2023-03-15-preview"
}

/// The settings of the deployment at `api_base`, named `deployment_id`,
/// reached with `api_key`.
pub fn azure_settings(api_base: String, deployment_id: String, api_key: String) -> (settings: AzureSettings)
    ensures
        settings.api_base@ == api_base@,
        settings.api_version@ == "2023-03-15-preview"@,
        settings.deployment_id@ == deployment_id@,
        settings.api_key@ == api_key@,
{
    let api_version = azure_api_version().to_owned();
    AzureSettings { api_base, api_version, deployment_id, api_key }
}

/// The chat completion request for a question: model `gpt-3.5-turbo`, at
/// most 512 tokens, the system prompt `You are a helpful assistant.`, then
/// the question's prompt.
pub fn chat_request_plan(req: &AskReq) -> (plan: ChatRequestPlan)
    ensures
        plan.model@ == "gpt-3.5-turbo"@,
        plan.max_tokens == 512,
        plan.system_prompt@ == "You are a helpful assistant."@,
        plan.user_prompt@ == req.prompt@,
{
    ChatRequestPlan {
        model: "gpt-3.5-turbo".to_owned(),
        max_tokens: 512,
        system_prompt: "You are a helpful assistant.".to_owned(),
        user_prompt: req.prompt.clone(),
    }
}

/// The streamed completion request for a question: model `gpt-3.5-turbo`,
/// one choice, the question's prompt, streamed, at most 512 tokens.
pub fn completion_stream_plan(req: &AskReq) -> (plan: CompletionStreamPlan)
    ensures
        plan.model@ == "gpt-3.5-turbo"@,
        plan.n == 1,
        plan.prompt@ == req.prompt@,
        plan.stream,
        plan.max_tokens == 512,
{
    CompletionStreamPlan {
        model: "gpt-3.5-turbo".to_owned(),
        n: 1,
        prompt: req.prompt.clone(),
        stream: true,
        max_tokens: 512,
    }
}

/// Whether a question with conversation `cid` opens a new conversation.
pub open spec fn spec_opens_new_conversation(cid: Option<i64>) -> bool {
    cid is None || cid == Some(0i64)
}

/// A question continuing a conversation other than `0` opens no new
/// conversation; a question naming none, or conversation `0`, opens one.
pub proof fn lemma_new_conversation_only_without_cid(cid: Option<i64>)
    ensures
        cid matches Some(c) && c != 0 ==> !spec_opens_new_conversation(cid),
        cid is None ==> spec_opens_new_conversation(cid),
        cid == Some(0i64) ==> spec_opens_new_conversation(cid),
{
}

/// Where the answer to a question in conversation `cid` is recorded: a
/// question without a conversation, or with conversation `0`, opens a new
/// one and records the answer there; the answer is then recorded in `cid`.
pub fn persist_plan(cid: Option<i64>) -> (plan: PersistPlan)
    ensures
        plan.open_new_conversation == spec_opens_new_conversation(cid),
        plan.open_new_conversation == (cid is None || cid == Some(0i64)),
        plan.record_in == cid,
{
    let open_new_conversation = match cid {
        None => true,
        Some(c) => c == 0,
    };
    PersistPlan { open_new_conversation, record_in: cid }
}

/// The answer of a chat completion: the content of its first choice, or the
/// empty text where that choice has none. `contents` holds the contents of
/// the choices in order.
pub fn answer_text(contents: &Vec<Option<String>>) -> (answer: String)
    requires
        contents.len() > 0,
    ensures
        answer@ == (match contents[0] {
            Some(c) => c@,
            None => Seq::<char>::empty(),
        }),
{
    match &contents[0] {
        Some(c) => c.clone(),
        None => String::new(),
    }
}

/// A reply of the language model, as the service sees it before pushing it
/// to the client.
#[derive(Debug, Clone, PartialEq, Eq)]
pub enum StreamItem {
    /// A completion arrived; its JSON text, or `None` where serializing it failed.
    Completion(Option<String>),
    /// The model's stream reported an error instead of a completion.
    StreamError,
}

/// What the service does with a reply of the language model.
#[derive(Debug, Clone, PartialEq, Eq)]
pub enum StreamAction {
    /// Push this JSON text to the client and go on (for a single chat reply:
    /// then record the answer).
    Forward(String),
    /// Log the error and go on with the next reply.
    Skip,
    /// Stop and end the chat successfully, pushing and recording nothing more.
    Stop,
}

/// The next step after a reply of the language model: a completion is pushed
/// as its JSON text; a completion that could not be serialized ends the chat
/// (without pushing or recording it); a stream error is logged and skipped.
pub fn stream_step(item: StreamItem) -> (action: StreamAction)
    ensures
        match item {
            StreamItem::Completion(Some(json)) => action matches StreamAction::Forward(text)
                && text@ == json@,
            StreamItem::Completion(None) => action == StreamAction::Stop,
            StreamItem::StreamError => action == StreamAction::Skip,
        },
{
    match item {
        StreamItem::Completion(Some(json)) => StreamAction::Forward(json),
        StreamItem::Completion(None) => StreamAction::Stop,
        StreamItem::StreamError => StreamAction::Skip,
    }
}

/// The event type of every message pushed to the client's stream.
pub fn chat_event_type() -> (event: &'static str)
    ensures
        event@ == "chat"@,
{
    "chat"
}

/// The message pushed to a user whose daily quota is used up.
pub fn vip_expire_notice() -> (notice: &'static str)
    ensures
        notice@ == "vip-expire"@,
{
    "vip-expire"
}

/// The JSON payload of a completion message carrying `context` as its only
/// choice (index 0, finished with `stop`), with id `request_id`, model
/// `3.5-turbo`, an empty object type, and as creation time the clock reading
/// `now_millis` cut to 32 bits. The payload is always produced.
pub fn completion_payload(context: &String, request_id: String, now_millis: i64) -> (payload: Option<String>)
    ensures
        payload matches Some(p) && p@ == spec_completion_response_json(
            request_id@,
            context@,
            0,
            FinishReason::Stop,
            now_millis as u32,
            "3.5-turbo"@,
            ""@,
        ),
{
    let created = now_millis as u32;
    let json = completion_response_json(
        request_id,
        context.clone(),
        0,
        FinishReason::Stop,
        created,
        "3.5-turbo".to_owned(),
        "".to_owned(),
    );
    match json {
        Ok(j) => Some(j),
        Err(_) => None,
    }
}

/// The payload of a completion message carrying `context`, under a fresh
/// request id (a random UUID without dashes); see `completion_payload`.
pub fn custom_completion_payload(context: &String, now_millis: i64) -> (payload: Option<String>)
    ensures
        payload matches Some(p) && exists|id: Seq<char>|
            is_simple_v4_uuid(id) && p@ == #[trigger] spec_completion_response_json(
                id,
                context@,
                0,
                FinishReason::Stop,
                now_millis as u32,
                "3.5-turbo"@,
                ""@,
            ),
{
    let request_id = new_request_id();
    let ghost id = request_id@;
    let payload = completion_payload(context, request_id, now_millis);
    proof {
        assert(is_simple_v4_uuid(id));
    }
    payload
}

} // verus!
