use vstd::prelude::*;

verus! {

/// Who wrote a message of the conversation.
#[derive(Clone, Copy, Debug, PartialEq, Eq, Structural)]
pub enum MessageRole {
    User,
    Assistant,
}

/// A UTC instant: whole seconds since the Unix epoch and the nanoseconds past
/// that second.
#[derive(Clone, Copy, Debug, PartialEq, Eq, Structural)]
pub struct Timestamp {
    pub secs: i64,
    pub nanos: u32,
}

/// Relies on chrono::Utc::now, read back through DateTime::timestamp and
/// DateTime::timestamp_subsec_nanos: the clock gives no value that can be
/// promised.
#[verifier::external_body]
fn utc_now() -> (r: Timestamp) {
    let now = chrono::Utc::now();
    Timestamp { secs: now.timestamp(), nanos: now.timestamp_subsec_nanos() }
}

impl Timestamp {
    /// The instant now.
    pub fn now() -> (r: Self) {
        utc_now()
    }
}

/// One entry of a conversation. Never changed once made.
#[derive(Debug)]
pub struct Message {
    pub role: MessageRole,
    pub message: String,
    pub time_stamp: Timestamp,
}

/// What a message says, without its time: the part that a conversation's
/// record is about.
pub open spec fn entry(m: Message) -> (MessageRole, Seq<char>) {
    (m.role, m.message@)
}

impl Clone for Message {
    fn clone(&self) -> (r: Self)
        ensures
            r == *self,
    {
        Message { role: self.role, message: self.message.clone(), time_stamp: self.time_stamp }
    }
}

impl Message {
    /// A message written now.
    pub fn new(role: MessageRole, message: String) -> (r: Self)
        ensures
            r.role == role,
            r.message == message,
    {
        Message { role, message, time_stamp: utc_now() }
    }

    /// A message written at the given instant.
    pub fn at(role: MessageRole, message: String, time_stamp: Timestamp) -> (r: Self)
        ensures
            r == (Message { role, message, time_stamp }),
    {
        Message { role, message, time_stamp }
    }
}

/// One part of an engine message's content: text, or anything else (a tool
/// call or result, an image, audio, a document, reasoning).
#[derive(Debug)]
pub enum ContentPart {
    Text(String),
    Other,
}

/// The text of a message's parts: the text parts joined in order, the
/// others left out.
pub open spec fn text_of(parts: Seq<ContentPart>) -> Seq<char>
    decreases parts.len(),
{
    if parts.len() == 0 {
        Seq::empty()
    } else {
        text_of(parts.drop_last()) + match parts.last() {
            ContentPart::Text(t) => t@,
            ContentPart::Other => Seq::empty(),
        }
    }
}

impl Message {
    /// The message an engine message stands for: its role, and the text of
    /// its parts.
    pub fn from_parts(role: MessageRole, parts: &Vec<ContentPart>, time_stamp: Timestamp) -> (r:
        Self)
        ensures
            r.role == role,
            r.message@ == text_of(parts@),
            r.time_stamp == time_stamp,
    {
        let mut text = String::new();
        let mut i: usize = 0;
        while i < parts.len()
            invariant
                i <= parts@.len(),
                text@ == text_of(parts@.subrange(0, i as int)),
            decreases parts@.len() - i,
        {
            proof {
                assert(parts@.subrange(0, i + 1).drop_last() =~= parts@.subrange(0, i as int));
            }
            match &parts[i] {
                ContentPart::Text(t) => text.append(t.as_str()),
                ContentPart::Other => {
                    assert(text@ + Seq::<char>::empty() =~= text@);
                },
            }
            i = i + 1;
        }
        assert(parts@.subrange(0, parts@.len() as int) =~= parts@);
        Message { role, message: text, time_stamp }
    }
}

/// A copy of each message, in the same order.
pub fn copy_messages(messages: &Vec<Message>) -> (r: Vec<Message>)
    ensures
        r@ == messages@,
{
    let mut r: Vec<Message> = Vec::new();
    let mut i: usize = 0;
    while i < messages.len()
        invariant
            i <= messages@.len(),
            r@ == messages@.subrange(0, i as int),
        decreases messages@.len() - i,
    {
        r.push(messages[i].clone());
        i = i + 1;
    }
    assert(r@ =~= messages@);
    r
}

} // verus!
