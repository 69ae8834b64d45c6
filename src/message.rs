use vstd::prelude::*;

verus! {

/// Who authored a message.
#[derive(Clone, Copy, Debug, PartialEq, Eq, Structural)]
pub enum Role {
    User,
    Assistant,
}

impl Role {
    /// The role's name on the wire.
    pub open spec fn spec_name(self) -> Seq<char> {
        match self {
            Role::User => seq!['u', 's', 'e', 'r'],
            Role::Assistant => seq!['a', 's', 's', 'i', 's', 't', 'a', 'n', 't'],
        }
    }

    pub fn name(&self) -> (r: &'static str)
        ensures
            r@ == self.spec_name(),
    {
        match self {
            Role::User => {
                let r = "user";
                proof {
                    reveal_strlit("user");
                }
                assert(r@ =~= seq!['u', 's', 'e', 'r']);
                r
            },
            Role::Assistant => {
                let r = "assistant";
                proof {
                    reveal_strlit("assistant");
                }
                assert(r@ =~= seq!['a', 's', 's', 'i', 's', 't', 'a', 'n', 't']);
                r
            },
        }
    }
}

/// The mathematical value of a [`Message`].
pub struct MessageView {
    pub role: Role,
    pub content: Seq<char>,
    pub created_at: u64,
}

/// One entry of a conversation. Immutable once created; `created_at` is a
/// timestamp in milliseconds kept for display only.
#[derive(Debug)]
pub struct Message {
    pub role: Role,
    pub content: String,
    pub created_at: u64,
}

impl View for Message {
    type V = MessageView;

    open spec fn view(&self) -> MessageView {
        MessageView { role: self.role, content: self.content@, created_at: self.created_at }
    }
}

impl Clone for Message {
    fn clone(&self) -> (r: Self)
        ensures
            r@ == self@,
    {
        Message { role: self.role, content: self.content.clone(), created_at: self.created_at }
    }
}

impl Message {
    pub fn new(role: Role, content: String, created_at: u64) -> (r: Message)
        ensures
            r@ == (MessageView { role, content: content@, created_at }),
    {
        Message { role, content, created_at }
    }

    pub fn user(content: String, created_at: u64) -> (r: Message)
        ensures
            r@ == (MessageView { role: Role::User, content: content@, created_at }),
    {
        Message { role: Role::User, content, created_at }
    }

    pub fn assistant(content: String, created_at: u64) -> (r: Message)
        ensures
            r@ == (MessageView { role: Role::Assistant, content: content@, created_at }),
    {
        Message { role: Role::Assistant, content, created_at }
    }
}

} // verus!
