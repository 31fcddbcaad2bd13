//! The conversation context: the ordered message log sent to the LLM.
//!
//! The log is append-only within a turn. The first message is the system
//! preamble and stays in place until an explicit reset. Only the three
//! supported roles may be appended; anything else is an invalid role, a
//! programming defect rather than a user-facing condition.

use vstd::prelude::*;

use crate::errors::RoleError;

verus! {

/// Who speaks a message. Only the first three roles are supported by the
/// conversation context; the remaining ones exist in the chat protocol but
/// have no place in this assistant's log.
#[derive(Debug, Clone, Copy, PartialEq, Eq, Structural)]
pub enum Role {
    System,
    User,
    Assistant,
    Tool,
    Function,
}

/// A role the conversation context accepts.
pub open spec fn supported_role(role: Role) -> bool {
    role is System || role is User || role is Assistant
}

/// One entry of the conversation log.
#[derive(Debug)]
pub struct Message {
    pub role: Role,
    pub content: String,
}

/// `new_ctx` is `old_ctx` grown by exactly one message of the given role and
/// content, at its end.
pub open spec fn appended(
    old_ctx: Seq<Message>,
    new_ctx: Seq<Message>,
    role: Role,
    content: Seq<char>,
) -> bool {
    &&& new_ctx.len() == old_ctx.len() + 1
    &&& new_ctx.subrange(0, old_ctx.len() as int) == old_ctx
    &&& new_ctx.last().role == role
    &&& new_ctx.last().content@ == content
}

/// The ordered message log handed to the LLM on every call.
#[derive(Debug)]
pub struct ConversationContext {
    messages: Vec<Message>,
}

impl View for ConversationContext {
    type V = Seq<Message>;

    closed spec fn view(&self) -> Seq<Message> {
        self.messages@
    }
}

impl ConversationContext {
    /// An empty log.
    pub fn new() -> (r: Self)
        ensures
            r@ == Seq::<Message>::empty(),
    {
        ConversationContext { messages: Vec::new() }
    }

    /// A log opened by its system preamble.
    pub fn with_preamble(preamble: String) -> (r: Self)
        ensures
            r@.len() == 1,
            r@[0].role is System,
            r@[0].content@ == preamble@,
    {
        let mut messages: Vec<Message> = Vec::new();
        messages.push(Message { role: Role::System, content: preamble });
        ConversationContext { messages }
    }

    /// Appends one message. A supported role grows the log by exactly that
    /// message at its end; any other role changes nothing and is refused.
    pub fn add(&mut self, role: Role, content: String) -> (r: Result<(), RoleError>)
        ensures
            match r {
                Ok(()) => supported_role(role) && final(self)@ == old(self)@.push(
                    Message { role, content },
                ),
                Err(RoleError::InvalidRole) => !supported_role(role) && final(self)@ == old(
                    self,
                )@,
            },
    {
        match role {
            Role::System | Role::User | Role::Assistant => {
                self.messages.push(Message { role, content });
                Ok(())
            },
            _ => Err(RoleError::InvalidRole),
        }
    }

    /// Empties the log. Used only on an explicit session reset, never in the
    /// normal flow of a turn.
    pub fn clear(&mut self)
        ensures
            final(self)@ == Seq::<Message>::empty(),
    {
        self.messages.clear();
    }

    /// How many messages the log holds.
    pub fn len(&self) -> (r: usize)
        ensures
            r == self@.len(),
    {
        self.messages.len()
    }

    /// The message at position `i`.
    pub fn message_at(&self, i: usize) -> (r: &Message)
        requires
            i < self@.len(),
        ensures
            *r == self@[i as int],
    {
        &self.messages[i]
    }

    /// A read-only copy of the whole log, exactly as it would be sent to the
    /// LLM: same length, same roles, same contents, same order.
    pub fn snapshot(&self) -> (r: Vec<Message>)
        ensures
            r@.len() == self@.len(),
            forall|i: int| 0 <= i < r@.len() ==> #[trigger] r@[i] == self@[i],
    {
        let mut out: Vec<Message> = Vec::new();
        let n = self.messages.len();
        for i in 0..n
            invariant
                n == self.messages.len(),
                out@.len() == i,
                forall|j: int| 0 <= j < i ==> #[trigger] out@[j] == self.messages@[j],
        {
            let m = &self.messages[i];
            out.push(Message { role: m.role, content: m.content.clone() });
            proof {
                assert(out@[i as int] == self.messages@[i as int]);
            }
        }
        out
    }
}

} // verus!
