//! The chat relay: what is asked of the chat-completion service for one
//! message, and what is made of its response.
//!
//! Nothing is kept between calls. Every request holds the system prompt and
//! the one message that is relayed.

use crate::json::{
    element_of, json_element, json_member, json_model, json_parsed, json_text, member_of,
    parse_json, text_of, JsonModel,
};
use crate::reply::{text_view, Outgoing, OutgoingView, Report};
use crate::text::conjoin;
use vstd::prelude::*;

verus! {

/// Who speaks in a chat message.
#[derive(Debug, Clone, Copy, PartialEq, Eq)]
pub enum GPTRole {
    System,
    User,
    Assistant,
}

/// One message of a chat.
#[derive(Debug, Clone, PartialEq, Eq)]
pub struct GPTMessage {
    pub role: GPTRole,
    pub content: String,
}

/// The body of a chat-completion request.
#[derive(Debug, Clone, PartialEq, Eq)]
pub struct GPTRequest {
    pub model: String,
    pub messages: Vec<GPTMessage>,
}

/// One call of the chat-completion service: where to post, the value of the
/// authorization header, and the body.
#[derive(Debug, Clone, PartialEq, Eq)]
pub struct ChatCall {
    pub url: String,
    pub authorization: String,
    pub content_type: String,
    pub request: GPTRequest,
}

/// Why the relay has no reply.
#[derive(Debug, Clone, PartialEq, Eq)]
pub enum ChatError {
    /// The system prompt could not be read.
    MissingPrompt,
    /// No API key is configured.
    MissingKey,
    /// The call to the service failed; its description of the error.
    Transport(String),
    /// The service answered with text that is not JSON.
    MalformedJson,
    /// The service answered with JSON that holds no reply where one belongs.
    NoReply,
}

/// [`GPTMessage`] as contracts speak of it, with texts in place of strings.
pub struct GPTMessageView {
    pub role: GPTRole,
    pub content: Seq<char>,
}

/// [`GPTRequest`] as contracts speak of it, with texts in place of strings.
pub struct GPTRequestView {
    pub model: Seq<char>,
    pub messages: Seq<GPTMessageView>,
}

/// [`ChatCall`] as contracts speak of it, with texts in place of strings.
pub struct ChatCallView {
    pub url: Seq<char>,
    pub authorization: Seq<char>,
    pub content_type: Seq<char>,
    pub request: GPTRequestView,
}

/// [`ChatError`] as contracts speak of it, with texts in place of strings.
pub enum ChatErrorView {
    MissingPrompt,
    MissingKey,
    Transport(Seq<char>),
    MalformedJson,
    NoReply,
}

impl View for GPTMessage {
    type V = GPTMessageView;

    open spec fn view(&self) -> GPTMessageView {
        GPTMessageView { role: self.role, content: self.content@ }
    }
}

/// The messages a list of chat messages stands for.
pub open spec fn message_views(list: Seq<GPTMessage>) -> Seq<GPTMessageView> {
    list.map_values(|m: GPTMessage| m@)
}

impl View for GPTRequest {
    type V = GPTRequestView;

    open spec fn view(&self) -> GPTRequestView {
        GPTRequestView { model: self.model@, messages: message_views(self.messages@) }
    }
}

impl View for ChatCall {
    type V = ChatCallView;

    open spec fn view(&self) -> ChatCallView {
        ChatCallView {
            url: self.url@,
            authorization: self.authorization@,
            content_type: self.content_type@,
            request: self.request@,
        }
    }
}

impl View for ChatError {
    type V = ChatErrorView;

    open spec fn view(&self) -> ChatErrorView {
        match self {
            ChatError::MissingPrompt => ChatErrorView::MissingPrompt,
            ChatError::MissingKey => ChatErrorView::MissingKey,
            ChatError::Transport(detail) => ChatErrorView::Transport(detail@),
            ChatError::MalformedJson => ChatErrorView::MalformedJson,
            ChatError::NoReply => ChatErrorView::NoReply,
        }
    }
}

/// The messages of a request: the system prompt, then the relayed message.
pub open spec fn chat_messages(prompt: Seq<char>, content: Seq<char>) -> Seq<GPTMessageView> {
    seq![
        GPTMessageView { role: GPTRole::System, content: prompt },
        GPTMessageView { role: GPTRole::User, content },
    ]
}

/// The call that relays `content`.
pub open spec fn chat_call(prompt: Seq<char>, key: Seq<char>, content: Seq<char>) -> ChatCallView {
    ChatCallView {
        url: "https://api.openai.com/v1/chat/completions"@,
        authorization: "Bearer "@ + key,
        content_type: "application/json"@,
        request: GPTRequestView {
            model: "gpt-3.5-turbo"@,
            messages: chat_messages(prompt, content),
        },
    }
}

/// What is asked of the service for `content`: an error without a prompt or
/// without a key, the prompt being looked at first.
pub open spec fn chat_request_for(
    prompt: Option<Seq<char>>,
    key: Option<Seq<char>>,
    content: Seq<char>,
) -> Result<ChatCallView, ChatErrorView> {
    match prompt {
        None => Err(ChatErrorView::MissingPrompt),
        Some(prompt) => match key {
            None => Err(ChatErrorView::MissingKey),
            Some(key) => Ok(chat_call(prompt, key, content)),
        },
    }
}

/// Where the reply stands in a response: `choices[0].message.content`.
pub open spec fn reply_place(doc: JsonModel) -> JsonModel {
    member_of(member_of(element_of(member_of(doc, "choices"@), 0), "message"@), "content"@)
}

/// The reply a response document holds: the text at its place, if a JSON
/// string stands there.
pub open spec fn reply_in(doc: JsonModel) -> Result<Seq<char>, ChatErrorView> {
    match text_of(reply_place(doc)) {
        Some(text) => Ok(text),
        None => Err(ChatErrorView::NoReply),
    }
}

/// The reply in the body of a response.
pub open spec fn chat_response(body: Seq<char>) -> Result<Seq<char>, ChatErrorView> {
    match json_parsed(body) {
        Some(doc) => reply_in(doc),
        None => Err(ChatErrorView::MalformedJson),
    }
}

/// The view of a result that carries a text.
pub open spec fn reply_view(r: Result<String, ChatError>) -> Result<Seq<char>, ChatErrorView> {
    match r {
        Ok(text) => Ok(text@),
        Err(e) => Err(e@),
    }
}

/// The view of a result that carries a call.
pub open spec fn call_view(r: Result<ChatCall, ChatError>) -> Result<ChatCallView, ChatErrorView> {
    match r {
        Ok(call) => Ok(call@),
        Err(e) => Err(e@),
    }
}

/// What an error is called in messages and in the log.
pub open spec fn chat_error_detail(error: ChatErrorView) -> Seq<char> {
    match error {
        ChatErrorView::MissingPrompt => "the system prompt is missing"@,
        ChatErrorView::MissingKey => "the API key is missing"@,
        ChatErrorView::Transport(detail) => detail,
        ChatErrorView::MalformedJson => "malformed JSON"@,
        ChatErrorView::NoReply => "the response holds no reply"@,
    }
}

/// The list a request begins with: the system prompt alone.
pub fn new_init_message(prompt: String) -> (messages: Vec<GPTMessage>)
    ensures
        message_views(messages@) == seq![
            GPTMessageView { role: GPTRole::System, content: prompt@ },
        ],
{
    let mut messages: Vec<GPTMessage> = Vec::new();
    messages.push(GPTMessage { role: GPTRole::System, content: prompt });
    assert(message_views(messages@) =~= seq![
        GPTMessageView { role: GPTRole::System, content: prompt@ },
    ]);
    messages
}

/// Builds the call that relays `content`.
///
/// `prompt` is the system prompt as it was read for this call, `key` the API
/// key; either may be missing. The request holds two messages, the prompt and
/// `content`, whatever was relayed before.
pub fn chat_request(prompt: Option<String>, key: Option<String>, content: String) -> (r: Result<
    ChatCall,
    ChatError,
>)
    ensures
        call_view(r) == chat_request_for(text_view(prompt), text_view(key), content@),
{
    let prompt = match prompt {
        Some(prompt) => prompt,
        None => {
            return Err(ChatError::MissingPrompt);
        },
    };
    let key = match key {
        Some(key) => key,
        None => {
            return Err(ChatError::MissingKey);
        },
    };
    let ghost system = prompt@;
    let ghost user = content@;
    let mut messages = new_init_message(prompt);
    let ghost before = messages@;
    messages.push(GPTMessage { role: GPTRole::User, content });
    assert(message_views(messages@) =~= chat_messages(system, user)) by {
        assert(message_views(before).len() == before.len());
        assert(message_views(before)[0] == before[0]@);
    }
    let call = ChatCall {
        url: String::from_str("https://api.openai.com/v1/chat/completions"),
        authorization: conjoin("Bearer ", key.as_str()),
        content_type: String::from_str("application/json"),
        request: GPTRequest { model: String::from_str("gpt-3.5-turbo"), messages },
    };
    Ok(call)
}

/// Takes the reply out of a response document.
pub fn reply_of(doc: &serde_json::Value) -> (r: Result<String, ChatError>)
    ensures
        reply_view(r) == reply_in(json_model(*doc)),
{
    let choices = json_member(doc, "choices");
    let first = json_element(choices, 0);
    let message = json_member(first, "message");
    let content = json_member(message, "content");
    match json_text(content) {
        Some(text) => Ok(String::from_str(text)),
        None => Err(ChatError::NoReply),
    }
}

/// Reads the reply from the body of the service's response.
///
/// Text that is not JSON gives `MalformedJson`. JSON without a string at
/// `choices[0].message.content` gives `NoReply`. Otherwise the result is that
/// string.
pub fn response_from_chatgpt(body: &str) -> (r: Result<String, ChatError>)
    ensures
        reply_view(r) == chat_response(body@),
{
    match parse_json(body) {
        Ok(doc) => reply_of(&doc),
        Err(_) => Err(ChatError::MalformedJson),
    }
}

/// What the relay sends to the channel: the reply, or word of the failure
/// together with a line for the error log.
pub fn relay_report(outcome: &Result<String, ChatError>) -> (report: Report)
    ensures
        match outcome {
            Ok(text) => report.reply@ == OutgoingView::Say(text@) && report.log is None,
            Err(e) => report.reply@ == OutgoingView::Say("Failed: "@ + chat_error_detail(e@))
                && text_view(report.log) == Some("[ ERROR ] "@ + chat_error_detail(e@)),
        },
{
    match outcome {
        Ok(text) => Report { reply: Outgoing::Say(text.clone()), log: None },
        Err(e) => {
            let detail: &str = match e {
                ChatError::MissingPrompt => "the system prompt is missing",
                ChatError::MissingKey => "the API key is missing",
                ChatError::Transport(detail) => detail.as_str(),
                ChatError::MalformedJson => "malformed JSON",
                ChatError::NoReply => "the response holds no reply",
            };
            Report {
                reply: Outgoing::Say(conjoin("Failed: ", detail)),
                log: Some(conjoin("[ ERROR ] ", detail)),
            }
        },
    }
}

/// A request always holds two messages, the system prompt first and the
/// relayed message second, whatever the prompt, the key and the message are.
pub proof fn law_two_messages(prompt: Seq<char>, key: Seq<char>, content: Seq<char>)
    ensures
        chat_request_for(Some(prompt), Some(key), content) matches Ok(call)
            && call.request.messages.len() == 2
            && call.request.messages[0] == (GPTMessageView { role: GPTRole::System, content: prompt })
            && call.request.messages[1] == (GPTMessageView { role: GPTRole::User, content }),
{
}

} // verus!
