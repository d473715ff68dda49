//! The wire format: how messages and responses are written as JSON objects
//! and read back.
//!
//! A message is the object `{"role": tag, "content": text}`. The body of a
//! request is `{"model": name, "messages": [message, ...]}`. A response is an
//! object with the members `id`, `object`, `created`, `model`, `usage` and
//! `choices`. What stands under other keys does not change what is read, but
//! it is part of the document: a text is read as a whole before any member
//! is looked at, so a member under any key that is no JSON, that nests
//! deeper than `serde_json` follows, or that holds a number too large for
//! it, leaves no document and so no response.

use crate::api::{
    choice_views, lemma_role_tag_names_role, message_views, role_of_tag, role_tag, Message,
    MessageChoice, MessageChoiceView, MessageView, Response, ResponseView, Role, Usage,
};
use crate::json::{
    items_of, json_array, json_member, json_model, json_models, json_object, json_set,
    json_string, member, natural_of, text_of, Json,
};
use serde_json::Value;
use vstd::prelude::*;

verus! {

/// The text of the string under a key of an object.
pub open spec fn text_member(document: Json, key: Seq<char>) -> Option<Seq<char>> {
    match member(document, key) {
        Some(inner) => text_of(inner),
        None => None,
    }
}

/// The value of a number that is an integer from 0 to 2^32 - 1.
pub open spec fn count_of(document: Json) -> Option<u32> {
    match natural_of(document) {
        Some(natural) => if natural <= u32::MAX {
            Some(natural as u32)
        } else {
            None
        },
        None => None,
    }
}

/// The count under a key of an object.
pub open spec fn count_member(document: Json, key: Seq<char>) -> Option<u32> {
    match member(document, key) {
        Some(inner) => count_of(inner),
        None => None,
    }
}

/// The object that stands for a message.
pub open spec fn message_json(message: MessageView) -> Json {
    Json::Object(
        Map::empty().insert("role"@, Json::Text(role_tag(message.role))).insert(
            "content"@,
            Json::Text(message.content),
        ),
    )
}

/// The array that stands for the messages of a conversation, in order.
pub open spec fn messages_json(messages: Seq<MessageView>) -> Json {
    Json::Array(messages.map_values(|message: MessageView| message_json(message)))
}

/// The body of a completion request: the model's name and the whole
/// conversation.
pub open spec fn chat_body(model: Seq<char>, messages: Seq<MessageView>) -> Json {
    Json::Object(
        Map::empty().insert("model"@, Json::Text(model)).insert(
            "messages"@,
            messages_json(messages),
        ),
    )
}

/// The message that an object stands for: its `role` is one of the three
/// tags and its `content` is a string.
pub open spec fn decode_message(document: Json) -> Option<MessageView> {
    match (text_member(document, "role"@), text_member(document, "content"@)) {
        (Some(tag), Some(content)) => match role_of_tag(tag) {
            Some(role) => Some(MessageView { role, content }),
            None => None,
        },
        _ => None,
    }
}

/// The token counts that an object stands for: three counts.
pub open spec fn decode_usage(document: Json) -> Option<Usage> {
    match (
        count_member(document, "prompt_tokens"@),
        count_member(document, "completion_tokens"@),
        count_member(document, "total_tokens"@),
    ) {
        (Some(prompt_tokens), Some(completion_tokens), Some(total_tokens)) => Some(
            Usage { prompt_tokens, completion_tokens, total_tokens },
        ),
        _ => None,
    }
}

/// The choice that an object stands for: a message, the reason the service
/// stopped writing, and the place of the choice among the others.
pub open spec fn decode_choice(document: Json) -> Option<MessageChoiceView> {
    match member(document, "message"@) {
        Some(inner) => match (
            decode_message(inner),
            text_member(document, "finish_reason"@),
            count_member(document, "index"@),
        ) {
            (Some(message), Some(finish_reason), Some(index)) => Some(
                MessageChoiceView { message, finish_reason, index },
            ),
            _ => None,
        },
        None => None,
    }
}

/// The choices that the items of an array stand for, if each stands for one.
pub open spec fn decode_choices(items: Seq<Json>) -> Option<Seq<MessageChoiceView>> {
    if forall|i: int| 0 <= i < items.len() ==> (#[trigger] decode_choice(items[i])) is Some {
        Some(items.map_values(|item: Json| decode_choice(item).unwrap()))
    } else {
        None
    }
}

/// The choices under the key `choices` of an object.
pub open spec fn choices_member(document: Json) -> Option<Seq<MessageChoiceView>> {
    match member(document, "choices"@) {
        Some(inner) => match items_of(inner) {
            Some(items) => decode_choices(items),
            None => None,
        },
        None => None,
    }
}

/// The token counts under the key `usage` of an object.
pub open spec fn usage_member(document: Json) -> Option<Usage> {
    match member(document, "usage"@) {
        Some(inner) => decode_usage(inner),
        None => None,
    }
}

/// The response that a document stands for. Every member has to be there
/// and of its kind: a missing member, a number where a string belongs, a
/// count that is negative, fractional or above 2^32 - 1, an unknown role or
/// an item of `choices` that is no choice leaves no response.
pub open spec fn decode_response(document: Json) -> Option<ResponseView> {
    match (
        text_member(document, "id"@),
        text_member(document, "object"@),
        count_member(document, "created"@),
        text_member(document, "model"@),
        usage_member(document),
        choices_member(document),
    ) {
        (Some(id), Some(object), Some(created), Some(model), Some(usage), Some(choices)) => Some(
            ResponseView { id, object, created, model, usage, choices },
        ),
        _ => None,
    }
}

/// Reading back what was written for a message gives that message: the role
/// and the content come back unchanged.
pub proof fn lemma_message_round_trip(message: MessageView)
    ensures
        decode_message(message_json(message)) == Some(message),
{
    reveal_strlit("role");
    reveal_strlit("content");
    assert("role"@.len() == 4);
    assert("content"@.len() == 7);
    lemma_role_tag_names_role(message.role);
}

/// What is written for the message of the first choice of a response.
pub open spec fn first_choice_message(document: Json) -> Option<Json> {
    match member(document, "choices"@) {
        Some(inner) => match items_of(inner) {
            Some(items) => if items.len() > 0 {
                member(items[0], "message"@)
            } else {
                None
            },
            None => None,
        },
        None => None,
    }
}

/// A response whose first choice holds what was written for a message gives
/// that message back: the role and the content are as they were.
pub proof fn lemma_response_keeps_message(document: Json, message: MessageView)
    requires
        decode_response(document) is Some,
        first_choice_message(document) == Some(message_json(message)),
    ensures
        decode_response(document).unwrap().choices.len() > 0,
        decode_response(document).unwrap().choices[0].message == message,
{
    lemma_message_round_trip(message);
    let items = items_of(member(document, "choices"@).unwrap()).unwrap();
    assert(decode_choice(items[0]) is Some);
}

fn text_field(value: &Value, key: &str) -> (text: Option<String>)
    ensures
        match text {
            Some(text) => text_member(json_model(*value), key@) == Some(text@),
            None => text_member(json_model(*value), key@) is None,
        },
{
    match json_member(value, key) {
        Some(inner) => match inner.as_str() {
            Some(text) => Some(text.to_owned()),
            None => None,
        },
        None => None,
    }
}

fn count_of_value(value: &Value) -> (count: Option<u32>)
    ensures
        count == count_of(json_model(*value)),
{
    match value.as_u64() {
        Some(natural) => if natural <= u32::MAX as u64 {
            Some(natural as u32)
        } else {
            None
        },
        None => None,
    }
}

fn count_field(value: &Value, key: &str) -> (count: Option<u32>)
    ensures
        count == count_member(json_model(*value), key@),
{
    match json_member(value, key) {
        Some(inner) => count_of_value(inner),
        None => None,
    }
}

impl Message {
    /// Writes the message as a JSON object.
    pub fn to_json(&self) -> (value: Value)
        ensures
            json_model(value) == message_json(self@),
    {
        let mut value = json_object();
        json_set(&mut value, "role", json_string(self.role.as_str()));
        json_set(&mut value, "content", json_string(self.content.as_str()));
        value
    }

    /// Reads a message from a JSON object; `None` where the value does not
    /// stand for a message.
    pub fn from_json(value: &Value) -> (message: Option<Message>)
        ensures
            match message {
                Some(message) => decode_message(json_model(*value)) == Some(message@),
                None => decode_message(json_model(*value)) is None,
            },
    {
        let tag = text_field(value, "role");
        let content = text_field(value, "content");
        match (tag, content) {
            (Some(tag), Some(content)) => match Role::from_tag(tag.as_str()) {
                Some(role) => Some(Message { role, content }),
                None => None,
            },
            _ => None,
        }
    }
}

impl Usage {
    /// Reads the token counts from a JSON object; `None` where the value
    /// does not stand for them.
    pub fn from_json(value: &Value) -> (usage: Option<Usage>)
        ensures
            usage == decode_usage(json_model(*value)),
    {
        let prompt_tokens = count_field(value, "prompt_tokens");
        let completion_tokens = count_field(value, "completion_tokens");
        let total_tokens = count_field(value, "total_tokens");
        match (prompt_tokens, completion_tokens, total_tokens) {
            (Some(prompt_tokens), Some(completion_tokens), Some(total_tokens)) => Some(
                Usage { prompt_tokens, completion_tokens, total_tokens },
            ),
            _ => None,
        }
    }
}

impl MessageChoice {
    /// Reads a choice from a JSON object; `None` where the value does not
    /// stand for a choice.
    pub fn from_json(value: &Value) -> (choice: Option<MessageChoice>)
        ensures
            match choice {
                Some(choice) => decode_choice(json_model(*value)) == Some(choice@),
                None => decode_choice(json_model(*value)) is None,
            },
    {
        let message = match json_member(value, "message") {
            Some(inner) => Message::from_json(inner),
            None => None,
        };
        let finish_reason = text_field(value, "finish_reason");
        let index = count_field(value, "index");
        match (message, finish_reason, index) {
            (Some(message), Some(finish_reason), Some(index)) => Some(
                MessageChoice { message, finish_reason, index },
            ),
            _ => None,
        }
    }
}

/// Writes the messages of a conversation as a JSON array, in order.
pub fn messages_to_json(messages: &[Message]) -> (value: Value)
    ensures
        json_model(value) == messages_json(message_views(messages@)),
{
    let mut items: Vec<Value> = Vec::new();
    let mut i: usize = 0;
    while i < messages.len()
        invariant
            i <= messages.len(),
            items@.len() == i,
            forall|j: int|
                0 <= j < i ==> json_model(#[trigger] items@[j]) == message_json(messages@[j]@),
        decreases messages.len() - i,
    {
        items.push(messages[i].to_json());
        i += 1;
    }
    assert(json_models(items@) =~= message_views(messages@).map_values(
        |message: MessageView| message_json(message),
    ));
    json_array(items)
}

/// Writes the body of a completion request.
pub fn chat_body_to_json(model: &str, messages: &[Message]) -> (value: Value)
    ensures
        json_model(value) == chat_body(model@, message_views(messages@)),
{
    let mut value = json_object();
    json_set(&mut value, "model", json_string(model));
    json_set(&mut value, "messages", messages_to_json(messages));
    value
}

/// Reads the choices from the items of a JSON array; `None` where an item
/// does not stand for a choice.
pub fn choices_from_json(items: &Vec<Value>) -> (choices: Option<Vec<MessageChoice>>)
    ensures
        match choices {
            Some(choices) => decode_choices(json_models(items@)) == Some(choice_views(choices@)),
            None => decode_choices(json_models(items@)) is None,
        },
{
    let ghost documents = json_models(items@);
    let mut choices: Vec<MessageChoice> = Vec::new();
    let mut i: usize = 0;
    while i < items.len()
        invariant
            i <= items.len(),
            documents == json_models(items@),
            choices@.len() == i,
            forall|j: int|
                0 <= j < i ==> decode_choice(#[trigger] documents[j]) == Some(choices@[j]@),
        decreases items.len() - i,
    {
        match MessageChoice::from_json(&items[i]) {
            Some(choice) => {
                choices.push(choice);
            },
            None => {
                assert(decode_choice(documents[i as int]) is None);
                return None;
            },
        }
        i += 1;
    }
    assert(choice_views(choices@) =~= documents.map_values(
        |item: Json| decode_choice(item).unwrap(),
    ));
    Some(choices)
}

impl Response {
    /// Reads a response from a JSON object; `None` where the value does not
    /// stand for a response.
    pub fn from_json(value: &Value) -> (response: Option<Response>)
        ensures
            match response {
                Some(response) => decode_response(json_model(*value)) == Some(response@),
                None => decode_response(json_model(*value)) is None,
            },
    {
        let id = text_field(value, "id");
        let object = text_field(value, "object");
        let created = count_field(value, "created");
        let model = text_field(value, "model");
        let usage = match json_member(value, "usage") {
            Some(inner) => Usage::from_json(inner),
            None => None,
        };
        let choices = match json_member(value, "choices") {
            Some(inner) => match inner.as_array() {
                Some(items) => choices_from_json(items),
                None => None,
            },
            None => None,
        };
        match (id, object, created, model, usage, choices) {
            (Some(id), Some(object), Some(created), Some(model), Some(usage), Some(choices)) => {
                Some(Response { id, object, created, model, usage, choices })
            },
            _ => None,
        }
    }
}

} // verus!
