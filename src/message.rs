use vstd::prelude::*;

verus! {

/// Who wrote a message of the conversation.
#[derive(Clone, Copy, Debug, PartialEq, Eq, Structural)]
pub enum Role {
    System,
    User,
    Assistant,
}

/// The name a role carries on the wire.
pub open spec fn role_name(r: Role) -> Seq<char> {
    match r {
        Role::System => "system"@,
        Role::User => "user"@,
        Role::Assistant => "assistant"@,
    }
}

impl Role {
    pub fn as_str(&self) -> (r: &'static str)
        ensures
            r@ == role_name(*self),
    {
        match self {
            Role::System => {
                proof { reveal_strlit("system"); }
                "system"
            },
            Role::User => {
                proof { reveal_strlit("user"); }
                "user"
            },
            Role::Assistant => {
                proof { reveal_strlit("assistant"); }
                "assistant"
            },
        }
    }
}

/// One turn's text, with the role that wrote it. The role never changes.
#[derive(Clone, Debug)]
pub struct Message {
    pub role: Role,
    pub content: String,
}

impl View for Message {
    type V = (Role, Seq<char>);

    open spec fn view(&self) -> (Role, Seq<char>) {
        (self.role, self.content@)
    }
}

impl Message {
    pub fn new(role: Role, content: String) -> (r: Message)
        ensures
            r@ == (role, content@),
    {
        Message { role, content }
    }

    /// A copy of this message, with the same role and text.
    pub fn cloned(&self) -> (r: Message)
        ensures
            r@ == self@,
    {
        Message { role: self.role, content: self.content.clone() }
    }

    pub fn role(&self) -> (r: Role)
        ensures
            r == self.role,
    {
        self.role
    }

    pub fn content(&self) -> (r: &String)
        ensures
            r@ == self.content@,
    {
        &self.content
    }
}

} // verus!
