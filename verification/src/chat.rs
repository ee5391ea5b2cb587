//! Role normalizer and chat assembler: maps free-form role labels into the
//! closed role set and threads caller-supplied history behind the fixed
//! system instruction.

use vstd::prelude::*;

use crate::text::str_eq;

verus! {

/// The closed set of speaker roles the model gateway is handed. Inbound
/// history is normalized to these two; the model's own reply is never re-fed
/// as a typed turn, so no assistant role is represented.
#[derive(Clone, Copy, PartialEq, Eq, Structural, Debug)]
pub enum Role {
    /// A caller-issued message.
    User,
    /// A system instruction framing the conversation.
    System,
}

/// One turn of caller-supplied history: the role is raw, untrusted text.
pub struct EduChatMessage {
    /// Free-form role label, normalized by `normalize_role`.
    pub role: String,
    /// The message body.
    pub content: String,
    /// Epoch-like creation time, supplied by the caller; carried, never read.
    pub timestamp: u64,
}

/// One normalized turn of the conversation handed to the model gateway.
pub struct ChatMessage {
    /// The normalized speaker role.
    pub role: Role,
    /// The message body, carried over verbatim.
    pub content: String,
}

/// Role normalization: exactly "user" maps to `User`, exactly "system" to
/// `System`, and every other label (empty, unknown, or differently cased)
/// falls back to `User`. Total: no input is rejected.
pub open spec fn normalize_role_spec(raw: Seq<char>) -> Role {
    if raw == "user"@ {
        Role::User
    } else if raw == "system"@ {
        Role::System
    } else {
        Role::User
    }
}

/// Maps a free-form role label into the closed role set.
pub fn normalize_role(raw: &str) -> (r: Role)
    ensures
        r == normalize_role_spec(raw@),
{
    if str_eq(raw, "user") {
        Role::User
    } else if str_eq(raw, "system") {
        Role::System
    } else {
        Role::User
    }
}

/// The fixed system instruction injected at the head of every assembled
/// conversation.
pub open spec fn system_instruction_text() -> Seq<char> {
    "You are a helpful educational assistant. Provide clear, concise, and accurate answers."@
}

/// The fixed system instruction as an owned string.
pub fn system_instruction() -> (r: String)
    ensures
        r@ == system_instruction_text(),
{
    String::from_str(
        "You are a helpful educational assistant. Provide clear, concise, and accurate answers.",
    )
}

/// Assembles the conversation for one gateway call: the fixed system
/// instruction at position 0, then every caller-supplied turn in its
/// original order, with its role normalized and its content kept verbatim.
/// Empty history yields the one-element conversation holding only the
/// system instruction.
pub fn assemble(messages: &Vec<EduChatMessage>) -> (r: Vec<ChatMessage>)
    ensures
        r@.len() == messages@.len() + 1,
        r@[0].role == Role::System,
        r@[0].content@ == system_instruction_text(),
        forall|i: int|
            0 <= i < messages@.len() ==> (#[trigger] r@[i + 1]).role == normalize_role_spec(
                messages@[i].role@,
            ),
        forall|i: int|
            0 <= i < messages@.len() ==> (#[trigger] r@[i + 1]).content@ == messages@[i].content@,
{
    let mut r: Vec<ChatMessage> = Vec::new();
    r.push(ChatMessage { role: Role::System, content: system_instruction() });
    let mut i: usize = 0;
    while i < messages.len()
        invariant
            i <= messages@.len(),
            r@.len() == i + 1,
            r@[0].role == Role::System,
            r@[0].content@ == system_instruction_text(),
            forall|k: int|
                0 <= k < i ==> (#[trigger] r@[k + 1]).role == normalize_role_spec(
                    messages@[k].role@,
                ),
            forall|k: int|
                0 <= k < i ==> (#[trigger] r@[k + 1]).content@ == messages@[k].content@,
        decreases messages@.len() - i,
    {
        let m = &messages[i];
        let turn = ChatMessage { role: normalize_role(m.role.as_str()), content: m.content.clone() };
        r.push(turn);
        i += 1;
    }
    r
}

} // verus!
