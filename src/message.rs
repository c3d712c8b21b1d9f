use vstd::prelude::*;

verus! {

/// Who wrote a message of a conversation.
#[derive(Debug, Clone, Copy, PartialEq, Eq, Structural)]
pub enum Role {
    System,
    User,
    Assistant,
}

/// One message of a conversation.
#[derive(Debug, Clone)]
pub struct Message {
    pub role: Role,
    pub content: String,
}

/// Appending a new message to a conversation log.
pub trait Push {
    fn add_new(&mut self, role: Role, content: &str);
}

impl Push for Vec<Message> {
    /// Appends a message with the given role and a copy of `content`.
    fn add_new(&mut self, role: Role, content: &str)
        ensures
            final(self)@.len() == old(self)@.len() + 1,
            final(self)@.subrange(0, old(self)@.len() as int) == old(self)@,
            final(self)@.last().role == role,
            final(self)@.last().content@ == content@,
    {
        let text = String::from_str(content);
        self.push(Message { role, content: text });
    }
}

} // verus!
