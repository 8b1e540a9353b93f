//! Chat mediation: mapping role-tagged input messages to typed chat
//! messages, building a chat request with an optional structured-output
//! constraint parsed from a caller-supplied JSON-schema string, and
//! normalizing the raw transport outcome into the caller-facing result.

use vstd::prelude::*;
use vstd::string::StringExecFns;

use crate::text::is_blank;
use crate::text::is_blank_str;

verus! {

/// A role-tagged input message as handed in by the caller: the role is free
/// text at this point, recognized or not.
pub struct Message {
    pub role: String,
    pub content: String,
}

/// A recognized chat role.
#[derive(Clone, Copy, PartialEq, Eq, Structural, Debug)]
pub enum Role {
    User,
    Assistant,
    System,
}

/// A chat message whose role has been resolved.
pub struct ChatMessage {
    pub role: Role,
    pub content: String,
}

/// A chat request ready for submission: model identifier, conversation in
/// order, and an optional structured-output constraint.
pub struct ChatRequest {
    pub model: String,
    pub messages: Vec<ChatMessage>,
    pub format: Option<schemars::Schema>,
}

#[verifier::external_type_specification]
#[verifier::external_body]
pub struct ExSchema(schemars::Schema);

#[verifier::external_type_specification]
#[verifier::external_body]
pub struct ExJsonError(serde_json::Error);

/// Whether the text is accepted as a JSON-schema document.
pub uninterp spec fn schema_accepts(s: Seq<char>) -> bool;

/// Relies on serde_json::from_str::<schemars::Schema>: acceptance is a pure
/// function of the input text (valid JSON whose top-level value passes the
/// schema validation).
#[verifier::external_body]
fn parse_schema(s: &str) -> (r: Result<schemars::Schema, serde_json::Error>)
    ensures
        r is Ok <==> schema_accepts(s@),
{
    serde_json::from_str::<schemars::Schema>(s)
}

/// Relies on serde_json::Error's Display implementation for the parser
/// diagnostic text; nothing is claimed of its content.
#[verifier::external_body]
fn json_error_message(e: &serde_json::Error) -> (r: String) {
    format!("{}", e)
}

/// The role a free-text role string resolves to: the three recognized
/// literals map to themselves, anything else falls back to the user role.
pub open spec fn role_of(role: Seq<char>) -> Role {
    if role == "user"@ {
        Role::User
    } else if role == "assistant"@ {
        Role::Assistant
    } else if role == "system"@ {
        Role::System
    } else {
        Role::User
    }
}

/// Fallback law: a role string other than the three recognized literals
/// resolves to the user role; unrecognized roles are never rejected.
pub proof fn lemma_role_fallback(role: Seq<char>)
    requires
        role != "user"@,
        role != "assistant"@,
        role != "system"@,
    ensures
        role_of(role) == Role::User,
{
}

/// The prefix of every schema-rejection diagnostic.
pub open spec fn schema_error_prefix() -> Seq<char> {
    "Failed to parse JSON schema: "@
}

/// Resolves one input message's role, keeping its content.
pub fn map_message(m: &Message) -> (c: ChatMessage)
    ensures
        c.role == role_of(m.role@),
        c.content@ == m.content@,
{
    let role = if m.role == String::from_str("user") {
        Role::User
    } else if m.role == String::from_str("assistant") {
        Role::Assistant
    } else if m.role == String::from_str("system") {
        Role::System
    } else {
        Role::User
    };
    ChatMessage { role, content: m.content.clone() }
}

/// Resolves every input message's role, keeping order and content.
pub fn map_messages(msgs: &Vec<Message>) -> (r: Vec<ChatMessage>)
    ensures
        r@.len() == msgs@.len(),
        forall|i: int|
            0 <= i < msgs@.len() ==> (#[trigger] r@[i]).role == role_of(msgs@[i].role@)
                && r@[i].content@ == msgs@[i].content@,
{
    let mut r: Vec<ChatMessage> = Vec::new();
    let mut i: usize = 0;
    while i < msgs.len()
        invariant
            i <= msgs@.len(),
            r@.len() == i,
            forall|j: int|
                0 <= j < i ==> (#[trigger] r@[j]).role == role_of(msgs@[j].role@)
                    && r@[j].content@ == msgs@[j].content@,
        decreases msgs@.len() - i,
    {
        r.push(map_message(&msgs[i]));
        i += 1;
    }
    r
}

/// Builds the chat request for a model, a message list and a schema string.
/// An empty schema string means free-form chat; a non-empty one must parse
/// as a JSON-schema document, else the request is rejected client-side with
/// a prefixed diagnostic and nothing is submitted.
pub fn build_request(model: String, messages: &Vec<Message>, schema: &str) -> (r: Result<
    ChatRequest,
    String,
>)
    ensures
        schema@.len() == 0 ==> r is Ok,
        schema@.len() > 0 ==> (r is Ok <==> schema_accepts(schema@)),
        r is Ok ==> {
            let req = r->Ok_0;
            &&& req.model@ == model@
            &&& req.messages@.len() == messages@.len()
            &&& forall|i: int|
                0 <= i < messages@.len() ==> (#[trigger] req.messages@[i]).role == role_of(
                    messages@[i].role@,
                ) && req.messages@[i].content@ == messages@[i].content@
            &&& req.format is Some <==> schema@.len() > 0
        },
        r is Err ==> schema_error_prefix().is_prefix_of(r->Err_0@),
{
    let chat_messages = map_messages(messages);
    let format: Option<schemars::Schema> = if !schema.is_empty() {
        match parse_schema(schema) {
            Ok(parsed) => Some(parsed),
            Err(e) => {
                let mut msg = String::from_str("Failed to parse JSON schema: ");
                let diag = json_error_message(&e);
                msg.append(diag.as_str());
                proof {
                    assert(schema_error_prefix().is_prefix_of(msg@)) by {
                        assert(msg@.subrange(0, schema_error_prefix().len() as int)
                            =~= schema_error_prefix());
                    }
                }
                return Err(msg);
            },
        }
    } else {
        None
    };
    Ok(ChatRequest { model, messages: chat_messages, format })
}

/// Normalizes the transport outcome: a successful reply whose content is
/// empty or whitespace-only becomes the sentinel text, any other content is
/// passed through verbatim, and a transport failure is reported with a
/// prefixed diagnostic.
pub fn normalize_response(outcome: Result<String, String>) -> (r: Result<String, String>)
    ensures
        outcome is Ok && is_blank(outcome->Ok_0@) ==> r is Ok && r->Ok_0@ == "Null response"@,
        outcome is Ok && !is_blank(outcome->Ok_0@) ==> r is Ok && r->Ok_0@ == outcome->Ok_0@,
        outcome is Err ==> r is Err && r->Err_0@ == "Ollama error: "@ + outcome->Err_0@,
{
    match outcome {
        Ok(content) => {
            if is_blank_str(content.as_str()) {
                Ok(String::from_str("Null response"))
            } else {
                Ok(content)
            }
        },
        Err(e) => {
            let mut msg = String::from_str("Ollama error: ");
            msg.append(e.as_str());
            Err(msg)
        },
    }
}

} // verus!
