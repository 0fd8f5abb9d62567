use vstd::prelude::*;
use crate::message::Message;
use crate::save::loaded;

verus! {

/// The file-backed transcript: the whole conversation kept in one file as a
/// list of messages, read whole and rewritten whole on each message.
#[derive(Debug)]
pub struct FileHandler {
    pub file_path: String,
}

impl Clone for FileHandler {
    fn clone(&self) -> (r: Self)
        ensures
            r == *self,
    {
        FileHandler { file_path: self.file_path.clone() }
    }
}

/// The transcript after one more message: what the file held (nothing, if
/// it was missing, empty or unreadable) with `m` last.
pub open spec fn transcript_after(existing: Option<Seq<Message>>, m: Message) -> Seq<Message> {
    match existing {
        Some(s) => s.push(m),
        None => seq![m],
    }
}

/// The transcript after writing each of `msgs` in turn, starting from a
/// missing file.
pub open spec fn written(msgs: Seq<Message>) -> Seq<Message>
    decreases msgs.len(),
{
    if msgs.len() == 0 {
        Seq::empty()
    } else {
        transcript_after(Some(written(msgs.drop_last())), msgs.last())
    }
}

/// Writing messages one by one through the transcript and then loading the
/// file gives back those messages, in the order written; a transcript that
/// was never written loads as no message.
pub proof fn lemma_transcript_round_trip(msgs: Seq<Message>)
    ensures
        written(msgs) == msgs,
    decreases msgs.len(),
{
    if msgs.len() > 0 {
        lemma_transcript_round_trip(msgs.drop_last());
        assert(msgs.drop_last().push(msgs.last()) =~= msgs);
    }
}

impl FileHandler {
    pub fn new(file_path: String) -> (r: Self)
        ensures
            r.file_path == file_path,
    {
        FileHandler { file_path }
    }

    /// The transcript to write back when `message` arrives and the file held
    /// `existing` (`None`: missing, empty or unreadable).
    pub fn updated_transcript(existing: Option<Vec<Message>>, message: Message) -> (r: Vec<
        Message,
    >)
        ensures
            r@ == loaded(existing).push(message),
            r@ == transcript_after(
                match existing {
                    Some(v) => Some(v@),
                    None => None,
                },
                message,
            ),
    {
        let mut history = match existing {
            Some(v) => v,
            None => Vec::new(),
        };
        history.push(message);
        proof {
            if existing is None {
                assert(history@ =~= seq![message]);
            }
        }
        history
    }
}

/// A handler registered on a runtime: the built-in transcript, or one that
/// the caller keeps and names by a number.
#[derive(Debug)]
pub enum HandlerRef {
    Transcript(FileHandler),
    External(u64),
}

impl Clone for HandlerRef {
    fn clone(&self) -> (r: Self)
        ensures
            r == *self,
    {
        match self {
            HandlerRef::Transcript(h) => HandlerRef::Transcript(h.clone()),
            HandlerRef::External(id) => HandlerRef::External(*id),
        }
    }
}

/// One handler to run, with its own copy of the message.
#[derive(Debug)]
pub struct Notification {
    pub handler: HandlerRef,
    pub message: Message,
}

/// The notifications for `message`: one for each handler, in registration
/// order.
pub fn notifications(handlers: &Vec<HandlerRef>, message: &Message) -> (r: Vec<Notification>)
    ensures
        r@.len() == handlers@.len(),
        forall|i: int|
            0 <= i < r@.len() ==> #[trigger] r@[i].handler == handlers@[i] && r@[i].message
                == *message,
{
    let mut r: Vec<Notification> = Vec::new();
    let mut i: usize = 0;
    while i < handlers.len()
        invariant
            i <= handlers@.len(),
            r@.len() == i,
            forall|j: int|
                0 <= j < i ==> #[trigger] r@[j].handler == handlers@[j] && r@[j].message
                    == *message,
        decreases handlers@.len() - i,
    {
        r.push(Notification { handler: handlers[i].clone(), message: message.clone() });
        i = i + 1;
    }
    r
}

} // verus!
