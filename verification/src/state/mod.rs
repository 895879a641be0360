//! What the chat client holds: the messages, oldest first.

pub mod types;

use vstd::prelude::*;
use crate::state::types::message::Message;

verus! {

/// The state of the chat client.
pub struct Client {
    messages: Vec<Message>,
}

impl View for Client {
    type V = Seq<Message>;

    /// The messages, in the order in which they were requested.
    closed spec fn view(&self) -> Seq<Message> {
        self.messages@
    }
}

impl Client {
    /// A client without messages.
    pub fn new() -> (client: Client)
        ensures
            client@ == Seq::<Message>::empty(),
    {
        Client { messages: Vec::new() }
    }

    /// Takes `msg` as the newest message. The earlier ones stay as they are.
    pub fn request_message(&mut self, msg: Message)
        ensures
            final(self)@ == old(self)@.push(msg),
    {
        self.messages.push(msg);
    }

    /// The messages, oldest first.
    pub fn messages(&self) -> (messages: &Vec<Message>)
        ensures
            messages@ == self@,
    {
        &self.messages
    }
}

} // verus!
