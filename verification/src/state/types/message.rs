//! One chat message.

use vstd::prelude::*;

verus! {

/// A message: who sent it, and what it says.
pub struct Message {
    username: String,
    content: String,
}

impl View for Message {
    type V = (Seq<char>, Seq<char>);

    /// The sender's name and the text.
    closed spec fn view(&self) -> (Seq<char>, Seq<char>) {
        (self.username@, self.content@)
    }
}

impl Message {
    /// The message that `username` sent with the text `content`.
    pub fn new(username: String, content: String) -> (message: Message)
        ensures
            message@ == (username@, content@),
    {
        Message { username, content }
    }

    /// The sender's name.
    pub fn username(&self) -> (username: &str)
        ensures
            username@ == self@.0,
    {
        self.username.as_str()
    }

    /// The text.
    pub fn content(&self) -> (content: &str)
        ensures
            content@ == self@.1,
    {
        self.content.as_str()
    }
}

} // verus!
