//! What the chat window holds: who is logged in, and the messages so far.

use vstd::prelude::*;

verus! {

/// Someone who takes part in the chat, known by a display name.
pub struct Member {
    pub name: String,
}

impl Clone for Member {
    fn clone(&self) -> (copy: Member)
        ensures
            copy == *self,
    {
        Member { name: self.name.clone() }
    }
}

/// A message in the chat window: who sent it, and what it says.
pub struct Message {
    pub sender: Member,
    pub content: String,
}

impl Member {
    /// The member called `name`.
    pub fn new(name: String) -> (member: Member)
        ensures
            member.name@ == name@,
    {
        Member { name }
    }

    /// The message with the text `msg`, sent by this member.
    pub fn send_message(&self, msg: String) -> (message: Message)
        ensures
            message.sender == *self,
            message.content@ == msg@,
    {
        Message { sender: self.clone(), content: msg }
    }
}

/// The state of the chat window.
pub struct State {
    pub user: Member,
    /// The messages, oldest first.
    pub messages: Vec<Message>,
}

impl State {
    /// The window of `user`, without messages.
    pub fn new(user: Member) -> (state: State)
        ensures
            state.user == user,
            state.messages@ == Seq::<Message>::empty(),
    {
        State { user, messages: Vec::new() }
    }

    /// Sends `text` in the user's name: the message becomes the newest one, and
    /// the earlier ones stay as they are.
    pub fn post(&mut self, text: String)
        ensures
            final(self).user == old(self).user,
            final(self).messages@.len() == old(self).messages@.len() + 1,
            final(self).messages@.drop_last() == old(self).messages@,
            final(self).messages@.last().sender == old(self).user,
            final(self).messages@.last().content@ == text@,
    {
        let message = self.user.send_message(text);
        self.messages.push(message);
        assert(self.messages@.drop_last() =~= old(self).messages@);
    }
}

} // verus!
