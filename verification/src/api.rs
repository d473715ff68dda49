//! The messages of a conversation and the completion call that extends it.

use crate::json::{json_text, parse_json, parsed_json, render_json, shape_error};
use crate::wire::{chat_body, chat_body_to_json, decode_response};
use vstd::prelude::*;

verus! {

/// Where a completion request is sent.
pub const CHAT_COMPLETIONS_URL: &'static str = "https://api.openai.com/v1/chat/completions";

/// The variable of the environment that holds the key of the service.
pub const API_KEY_VARIABLE: &'static str = "OPENAI_API_KEY";

/// The model that answers where a session names none.
pub const DEFAULT_MODEL: &'static str = "gpt-3.5-turbo";

/// The party that wrote a message.
#[derive(Debug, Clone, Copy, PartialEq, Eq, Structural)]
pub enum Role {
    System,
    User,
    Assistant,
}

/// The tag that stands for a role in a request or a response.
pub open spec fn role_tag(role: Role) -> Seq<char> {
    match role {
        Role::System => "system"@,
        Role::User => "user"@,
        Role::Assistant => "assistant"@,
    }
}

/// The role that a tag stands for, if it stands for one.
pub open spec fn role_of_tag(tag: Seq<char>) -> Option<Role> {
    if tag == "system"@ {
        Some(Role::System)
    } else if tag == "user"@ {
        Some(Role::User)
    } else if tag == "assistant"@ {
        Some(Role::Assistant)
    } else {
        None
    }
}

/// The three tags differ, so a tag names the role it was made from.
pub proof fn lemma_role_tag_names_role(role: Role)
    ensures
        role_of_tag(role_tag(role)) == Some(role),
{
    reveal_strlit("system");
    reveal_strlit("user");
    reveal_strlit("assistant");
    assert("system"@.len() == 6);
    assert("user"@.len() == 4);
    assert("assistant"@.len() == 9);
}

impl Role {
    /// The lowercase tag of this role.
    pub fn as_str(&self) -> (tag: &'static str)
        ensures
            tag@ == role_tag(*self),
    {
        match self {
            Role::System => "system",
            Role::User => "user",
            Role::Assistant => "assistant",
        }
    }

    /// Reads a role from its tag. Tags are case-sensitive: only the three
    /// lowercase tags name a role.
    pub fn from_tag(tag: &str) -> (role: Option<Role>)
        ensures
            role == role_of_tag(tag@),
    {
        let owned = tag.to_owned();
        if owned == "system".to_owned() {
            Some(Role::System)
        } else if owned == "user".to_owned() {
            Some(Role::User)
        } else if owned == "assistant".to_owned() {
            Some(Role::Assistant)
        } else {
            None
        }
    }
}

/// One turn of a conversation. A message is a value: a turn is added to a
/// conversation, never edited in place.
#[derive(Debug, PartialEq, Eq)]
pub struct Message {
    pub role: Role,
    pub content: String,
}

/// A message as a mathematical value.
pub struct MessageView {
    pub role: Role,
    pub content: Seq<char>,
}

impl View for Message {
    type V = MessageView;

    open spec fn view(&self) -> MessageView {
        MessageView { role: self.role, content: self.content@ }
    }
}

impl Clone for Message {
    fn clone(&self) -> (copy: Message)
        ensures
            copy == *self,
    {
        Message { role: self.role, content: self.content.clone() }
    }
}

/// The messages of a sequence as mathematical values, in order.
pub open spec fn message_views(messages: Seq<Message>) -> Seq<MessageView> {
    messages.map_values(|message: Message| message@)
}

/// The token counts of one completion.
#[derive(Debug, Clone, Copy, PartialEq, Eq, Structural)]
pub struct Usage {
    pub prompt_tokens: u32,
    pub completion_tokens: u32,
    pub total_tokens: u32,
}

/// One answer the service offers to a conversation.
#[derive(Debug, PartialEq, Eq)]
pub struct MessageChoice {
    pub message: Message,
    pub finish_reason: String,
    pub index: u32,
}

/// A choice as a mathematical value.
pub struct MessageChoiceView {
    pub message: MessageView,
    pub finish_reason: Seq<char>,
    pub index: u32,
}

impl View for MessageChoice {
    type V = MessageChoiceView;

    open spec fn view(&self) -> MessageChoiceView {
        MessageChoiceView {
            message: self.message@,
            finish_reason: self.finish_reason@,
            index: self.index,
        }
    }
}

impl Clone for MessageChoice {
    fn clone(&self) -> (copy: MessageChoice)
        ensures
            copy == *self,
    {
        MessageChoice {
            message: self.message.clone(),
            finish_reason: self.finish_reason.clone(),
            index: self.index,
        }
    }
}

/// The choices of a sequence as mathematical values, in order.
pub open spec fn choice_views(choices: Seq<MessageChoice>) -> Seq<MessageChoiceView> {
    choices.map_values(|choice: MessageChoice| choice@)
}

/// What the service answers to one completion call.
#[derive(Debug, PartialEq, Eq)]
pub struct Response {
    pub id: String,
    pub object: String,
    pub created: u32,
    pub model: String,
    pub usage: Usage,
    pub choices: Vec<MessageChoice>,
}

/// A response as a mathematical value.
pub struct ResponseView {
    pub id: Seq<char>,
    pub object: Seq<char>,
    pub created: u32,
    pub model: Seq<char>,
    pub usage: Usage,
    pub choices: Seq<MessageChoiceView>,
}

impl View for Response {
    type V = ResponseView;

    open spec fn view(&self) -> ResponseView {
        ResponseView {
            id: self.id@,
            object: self.object@,
            created: self.created,
            model: self.model@,
            usage: self.usage,
            choices: choice_views(self.choices@),
        }
    }
}

impl Clone for Response {
    fn clone(&self) -> (copy: Response)
        ensures
            copy@ == self@,
    {
        let mut choices: Vec<MessageChoice> = Vec::new();
        let mut i: usize = 0;
        while i < self.choices.len()
            invariant
                i <= self.choices.len(),
                choices@ == self.choices@.take(i as int),
            decreases self.choices.len() - i,
        {
            choices.push(self.choices[i].clone());
            i += 1;
        }
        assert(choices@ == self.choices@);
        Response {
            id: self.id.clone(),
            object: self.object.clone(),
            created: self.created,
            model: self.model.clone(),
            usage: self.usage,
            choices,
        }
    }
}

impl Response {
    /// The message of the first choice, the one a session takes as the
    /// reply. Later choices are never read. `None` for a response without
    /// choices.
    pub fn first_message(&self) -> (message: Option<&Message>)
        ensures
            match message {
                Some(message) => self.choices@.len() > 0 && *message == self.choices@[0].message,
                None => self.choices@.len() == 0,
            },
    {
        if self.choices.len() == 0 {
            None
        } else {
            Some(&self.choices[0].message)
        }
    }
}

/// Why a request got no answer: the connection failed, timed out or broke.
#[derive(Debug, PartialEq, Eq)]
pub struct TransportFailure {
    pub reason: String,
}

/// How a completion call fails.
#[derive(Debug)]
pub enum OAIError {
    /// The answer was not a response: no JSON document, or a document of
    /// another shape, such as the service's report of an error.
    SerdeError(serde_json::Error),
    /// The request got no answer.
    ReqwestError(TransportFailure),
}

impl OAIError {
    /// A short description of the failure.
    pub fn message(&self) -> (text: &'static str)
        ensures
            text@ == match *self {
                OAIError::SerdeError(_) => "deserialization failed"@,
                OAIError::ReqwestError(_) => "request failed"@,
            },
    {
        match self {
            OAIError::SerdeError(_) => "deserialization failed",
            OAIError::ReqwestError(_) => "request failed",
        }
    }
}

/// One completion request: what is sent over HTTP, with its two headers.
#[derive(Debug, PartialEq, Eq)]
pub struct ChatRequest {
    pub method: String,
    pub url: String,
    pub content_type: String,
    pub authorization: String,
    pub body: String,
}

/// A request as a mathematical value.
pub struct ChatRequestView {
    pub method: Seq<char>,
    pub url: Seq<char>,
    pub content_type: Seq<char>,
    pub authorization: Seq<char>,
    pub body: Seq<char>,
}

impl View for ChatRequest {
    type V = ChatRequestView;

    open spec fn view(&self) -> ChatRequestView {
        ChatRequestView {
            method: self.method@,
            url: self.url@,
            content_type: self.content_type@,
            authorization: self.authorization@,
            body: self.body@,
        }
    }
}

/// Whether a character may stand in the value of a header: a tab, or any
/// character from the space on other than the delete character.
pub open spec fn is_header_char(c: char) -> bool {
    c == '\t' || (c as u32 >= 32 && c as u32 != 127)
}

/// Whether a text may be the value of a header.
pub open spec fn is_header_text(text: Seq<char>) -> bool {
    forall|i: int| 0 <= i < text.len() ==> is_header_char(#[trigger] text[i])
}

/// `reqwest::header::HeaderValue::from_str`, asked only whether it accepts
/// a text. It accepts a text of which every byte is a tab, or is at least 32
/// and not 127. The bytes of a character beyond ASCII are all above 127, so
/// such a character is accepted.
#[verifier::external_body]
fn header_value_accepts(text: &str) -> (accepted: bool)
    ensures
        accepted == is_header_text(text@),
{
    reqwest::header::HeaderValue::from_str(text).is_ok()
}

impl ChatRequest {
    /// Tells whether the request can be sent as it is: whether each of its
    /// two headers holds a value that HTTP accepts.
    pub fn is_sendable(&self) -> (sendable: bool)
        ensures
            sendable == (is_header_text(self@.content_type) && is_header_text(
                self@.authorization,
            )),
    {
        header_value_accepts(self.content_type.as_str()) && header_value_accepts(
            self.authorization.as_str(),
        )
    }
}

/// The request that asks for the next message of a conversation: a POST to
/// the fixed address, whose body holds the model's name and every message,
/// in order, and whose key authorizes the call.
pub open spec fn chat_request(
    api_key: Seq<char>,
    model: Seq<char>,
    messages: Seq<MessageView>,
) -> ChatRequestView {
    ChatRequestView {
        method: "POST"@,
        url: CHAT_COMPLETIONS_URL@,
        content_type: "application/json"@,
        authorization: "Bearer "@ + api_key,
        body: json_text(chat_body(model, messages)),
    }
}

/// A completion request can be sent if and only if the key may stand in a
/// header: a key that holds a line break or another control character other
/// than a tab makes a request that cannot be sent.
pub proof fn lemma_request_sendable_by_key(
    api_key: Seq<char>,
    model: Seq<char>,
    messages: Seq<MessageView>,
)
    ensures
        ({
            let request = chat_request(api_key, model, messages);
            (is_header_text(request.content_type) && is_header_text(request.authorization))
                <==> is_header_text(api_key)
        }),
{
    reveal_strlit("application/json");
    reveal_strlit("Bearer ");
    let authorization = "Bearer "@ + api_key;
    assert(is_header_text("application/json"@));
    assert(is_header_text("Bearer "@));
    if is_header_text(api_key) {
        assert(is_header_text(authorization));
    }
    if is_header_text(authorization) {
        assert forall|i: int| 0 <= i < api_key.len() implies is_header_char(
            #[trigger] api_key[i],
        ) by {
            assert(authorization[i + 7] == api_key[i]);
        }
    }
}

/// The response that a text stands for: the whole text is one JSON document
/// and the document is a response.
pub open spec fn response_of_text(text: Seq<char>) -> Option<ResponseView> {
    match parsed_json(text) {
        Some(document) => decode_response(document),
        None => None,
    }
}

/// Whether `outcome` is the result of a completion call whose request was
/// answered by `reply`: a transport failure is handed on as it is; a body
/// that is a response gives that response; any other body is a
/// deserialization failure.
pub open spec fn is_completion_of(
    reply: Result<String, TransportFailure>,
    outcome: Result<Response, OAIError>,
) -> bool {
    match reply {
        Err(failure) => outcome == Err::<Response, OAIError>(OAIError::ReqwestError(failure)),
        Ok(body) => match outcome {
            Ok(response) => response_of_text(body@) == Some(response@),
            Err(error) => error is SerdeError && response_of_text(body@) is None,
        },
    }
}

/// A client of the completion service. It holds the key that authorizes its
/// calls and nothing else: no call changes it.
pub struct OpenAI {
    api_key: String,
}

impl OpenAI {
    /// The key this client was made with.
    pub closed spec fn key(&self) -> Seq<char> {
        self.api_key@
    }

    /// A client that authorizes its calls with `api_key`.
    pub fn new(api_key: &str) -> (client: OpenAI)
        ensures
            client.key() == api_key@,
    {
        OpenAI { api_key: api_key.to_owned() }
    }

    /// The value of the `Authorization` header.
    pub fn authorization(&self) -> (value: String)
        ensures
            value@ == "Bearer "@ + self.key(),
    {
        let mut value = "Bearer ".to_owned();
        value.append(self.api_key.as_str());
        value
    }

    /// The request that asks the service to continue `messages` with the
    /// model named `model`.
    pub fn chat_request(&self, model: &str, messages: &[Message]) -> (request: ChatRequest)
        ensures
            request@ == chat_request(self.key(), model@, message_views(messages@)),
    {
        let body = chat_body_to_json(model, messages);
        ChatRequest {
            method: "POST".to_owned(),
            url: CHAT_COMPLETIONS_URL.to_owned(),
            content_type: "application/json".to_owned(),
            authorization: self.authorization(),
            body: render_json(&body),
        }
    }

    /// Reads the body of an answer.
    pub fn parse_response(body: &str) -> (outcome: Result<Response, OAIError>)
        ensures
            match outcome {
                Ok(response) => response_of_text(body@) == Some(response@),
                Err(error) => error is SerdeError && response_of_text(body@) is None,
            },
    {
        match parse_json(body) {
            Ok(document) => match Response::from_json(&document) {
                Some(response) => Ok(response),
                None => Err(OAIError::SerdeError(shape_error("not a chat completion"))),
            },
            Err(error) => Err(OAIError::SerdeError(error)),
        }
    }

    /// Turns what came back for a request into the result of the call.
    pub fn completion_from(
        reply: Result<String, TransportFailure>,
    ) -> (outcome: Result<Response, OAIError>)
        ensures
            is_completion_of(reply, outcome),
    {
        match reply {
            Ok(body) => OpenAI::parse_response(body.as_str()),
            Err(failure) => Err(OAIError::ReqwestError(failure)),
        }
    }

    /// Asks the service for the next message of a conversation. `send`
    /// carries the request to the service and brings back the body of the
    /// answer; it is called once, with the request for `model` and
    /// `messages`.
    pub fn get_chat_completion<F>(
        &self,
        model: &str,
        messages: &[Message],
        send: F,
    ) -> (outcome: Result<Response, OAIError>) where
        F: FnOnce(ChatRequest) -> Result<String, TransportFailure>,

        requires
            forall|request: ChatRequest|
                request@ == chat_request(self.key(), model@, message_views(messages@))
                    ==> send.requires((request,)),
        ensures
            exists|request: ChatRequest, reply: Result<String, TransportFailure>|
                request@ == chat_request(self.key(), model@, message_views(messages@))
                    && send.ensures((request,), reply) && is_completion_of(reply, outcome),
    {
        let request = self.chat_request(model, messages);
        let reply = send(request);
        let outcome = OpenAI::completion_from(reply);
        assert(send.ensures((request,), reply) && is_completion_of(reply, outcome));
        outcome
    }
}

} // verus!
