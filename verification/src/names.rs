//! The two named clients of the plugin demo, the string messages they trade,
//! and the counters they keep.

use vstd::prelude::*;

use crate::text::{named_reply, named_reply_text};

verus! {

/// A client that has a name, by which it tells its log lines and replies apart.
pub trait ClientName {
    /// The name, as text.
    spec fn spec_name() -> Seq<char>;

    /// The name.
    fn name() -> (n: &'static str)
        ensures
            n@ == Self::spec_name(),
    ;
}

/// The client that talks to server A.
pub struct Main;

/// The client that talks to server B.
pub struct Alt;

impl ClientName for Main {
    open spec fn spec_name() -> Seq<char> {
        "Main"@
    }

    fn name() -> (n: &'static str) {
        "Main"
    }
}

impl ClientName for Alt {
    open spec fn spec_name() -> Seq<char> {
        "Alt"@
    }

    fn name() -> (n: &'static str) {
        "Alt"
    }
}

/// A message that carries text.
pub trait IsStringMessage: Sized {
    /// The text carried.
    spec fn text(&self) -> Seq<char>;

    /// A message carrying `contents`.
    fn new(contents: String) -> (m: Self)
        ensures
            m.text() == contents@,
    ;

    /// The text carried.
    fn contents(&self) -> (c: &String)
        ensures
            c@ == self.text(),
    ;
}

/// The string message of the demo protocols.
pub struct StringMessage {
    pub contents: String,
}

impl IsStringMessage for StringMessage {
    open spec fn text(&self) -> Seq<char> {
        self.contents@
    }

    fn new(contents: String) -> (m: Self) {
        StringMessage { contents }
    }

    fn contents(&self) -> (c: &String) {
        &self.contents
    }
}

/// One frame of client `T`'s message system: it answers each of the
/// `received` messages in turn, numbering the replies from `count` on.
/// Returns the messages to send.
pub fn message_events<T: ClientName, M: IsStringMessage>(count: &mut u32, received: usize) -> (replies: Vec<M>)
    requires
        *old(count) + received <= u32::MAX,
    ensures
        *final(count) == *old(count) + received,
        replies@.len() == received,
        forall|i: int| 0 <= i < received ==>
            #[trigger] replies@[i].text() == named_reply(T::spec_name(), (*old(count) + i) as nat),
{
    let mut replies: Vec<M> = Vec::new();
    let mut k: usize = 0;
    while k < received
        invariant
            k <= received,
            *old(count) + received <= u32::MAX,
            *count == *old(count) + k,
            replies@.len() == k,
            forall|i: int| 0 <= i < k ==>
                #[trigger] replies@[i].text() == named_reply(T::spec_name(), (*old(count) + i) as nat),
        decreases received - k,
    {
        let text = named_reply_text(T::name(), *count);
        replies.push(M::new(text));
        *count = *count + 1;
        k = k + 1;
    }
    replies
}

/// The message counters of the plugin client.
pub struct Global {
    pub message_count_a: u32,
    pub message_count_b: u32,
    pub message_count_c: u32,
}

impl Default for Global {
    fn default() -> (g: Self)
        ensures
            g.message_count_a == 0,
            g.message_count_b == 0,
            g.message_count_c == 0,
    {
        Global { message_count_a: 0, message_count_b: 0, message_count_c: 0 }
    }
}

/// The kinds of message a protocol plugin registers.
#[derive(Clone, Copy, Debug, PartialEq, Eq)]
pub enum MessageKind {
    Auth,
    StringMessage,
}

/// The plugin that registers server B's messages.
pub struct MessagesPlugin;

impl MessagesPlugin {
    /// Registers, in order, the login message and the string message.
    pub fn build(&self, protocol: &mut Vec<MessageKind>)
        ensures
            final(protocol)@ == old(protocol)@.push(MessageKind::Auth).push(MessageKind::StringMessage),
    {
        protocol.push(MessageKind::Auth);
        protocol.push(MessageKind::StringMessage);
    }
}

} // verus!
