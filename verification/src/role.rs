use vstd::prelude::*;
use vstd::string::StringExecFns;

use crate::message::{Message, MessageRole, MessageView, msg_views};

verus! {

/// A named (or anonymous/temporary) persona: a system prompt plus an
/// optional temperature override. The temperature is carried in
/// hundredths of the sampling temperature, so that the whole model stays
/// on plain integers; conversion to the wire's number happens outside
/// the verified library.
#[derive(Debug)]
pub struct Role {
    /// Empty name means the role is anonymous/temporary: it exists only
    /// as an ephemeral override and is never persisted or listed.
    pub name: String,
    pub prompt: String,
    pub temperature: Option<u32>,
}

impl Clone for Role {
    fn clone(&self) -> (r: Self)
        ensures
            r == *self,
    {
        Role {
            name: self.name.clone(),
            prompt: self.prompt.clone(),
            temperature: self.temperature,
        }
    }
}

/// A role is usable in a request only while its prompt is non-empty.
pub open spec fn role_usable(r: Role) -> bool {
    r.prompt@.len() > 0
}

/// The message prelude a bound role contributes: its prompt as the one
/// system message, or nothing when no role is bound.
pub open spec fn role_prelude(role: Option<Role>) -> Seq<MessageView> {
    match role {
        Some(r) => seq![MessageView { role: MessageRole::System, content: r.prompt@ }],
        None => Seq::empty(),
    }
}

impl Role {
    /// A fresh temporary role: anonymous, usable only as an ephemeral
    /// override for the current session.
    pub fn new(prompt: &str, temperature: Option<u32>) -> (r: Role)
        ensures
            r.name@ == Seq::<char>::empty(),
            r.prompt@ == prompt@,
            r.temperature == temperature,
    {
        Role { name: String::new(), prompt: prompt.to_owned(), temperature }
    }

    /// Whether the role is temporary (anonymous).
    pub fn is_temp(&self) -> (r: bool)
        ensures
            r == (self.name@.len() == 0),
    {
        self.name.as_str().is_empty()
    }

    /// The request sequence for a bound role with no prior exchanges:
    /// the system prompt followed by the user input.
    pub fn build_messages(&self, content: &str) -> (r: Vec<Message>)
        requires
            role_usable(*self),
        ensures
            msg_views(r@) == role_prelude(Some(*self)).push(
                MessageView { role: MessageRole::User, content: content@ },
            ),
    {
        let mut out: Vec<Message> = Vec::new();
        out.push(Message::with_role(MessageRole::System, self.prompt.as_str()));
        out.push(Message::new(content));
        proof {
            assert(msg_views(out@) =~= role_prelude(Some(*self)).push(
                MessageView { role: MessageRole::User, content: content@ },
            ));
        }
        out
    }

    /// The dry-run echo for this role: the prompt merged with the input.
    pub fn echo_messages(&self, content: &str) -> (r: String)
        ensures
            r@ == self.prompt@ + "\n"@ + content@,
    {
        self.prompt.clone().concat("\n").concat(content)
    }
}

} // verus!
