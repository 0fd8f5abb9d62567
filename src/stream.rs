use vstd::prelude::*;

verus! {

/// One item of the engine's multi-turn stream, as far as the adapter tells
/// items apart.
#[derive(Debug)]
pub enum StreamItem {
    /// Text written by the assistant.
    Text(String),
    ToolCall,
    ToolCallDelta,
    Reasoning,
    /// The assistant's closing marker of one turn.
    AssistantFinal,
    UserItem,
    /// The closing marker of the whole answer.
    FinalResponse,
    /// The engine's stream failed, with its message.
    Failure(String),
}

/// What the adapter yields from a stream: the assistant's text fragments in
/// order, other items dropped; a failure is yielded as an error and ends the
/// sequence.
pub open spec fn fragments_of(items: Seq<StreamItem>) -> Seq<Result<Seq<char>, Seq<char>>>
    decreases items.len(),
{
    if items.len() == 0 {
        Seq::empty()
    } else {
        match items[0] {
            StreamItem::Text(t) => seq![Ok(t@)] + fragments_of(items.drop_first()),
            StreamItem::Failure(e) => seq![Err(e@)],
            _ => fragments_of(items.drop_first()),
        }
    }
}

/// The assistant's text in a stream: its text items, joined in order.
pub open spec fn assistant_text(items: Seq<StreamItem>) -> Seq<char>
    decreases items.len(),
{
    if items.len() == 0 {
        Seq::empty()
    } else {
        match items[0] {
            StreamItem::Text(t) => t@ + assistant_text(items.drop_first()),
            _ => assistant_text(items.drop_first()),
        }
    }
}

/// The fragments joined in order (errors add nothing).
pub open spec fn joined_fragments(f: Seq<Result<Seq<char>, Seq<char>>>) -> Seq<char>
    decreases f.len(),
{
    if f.len() == 0 {
        Seq::empty()
    } else {
        match f[0] {
            Ok(t) => t + joined_fragments(f.drop_first()),
            Err(_) => joined_fragments(f.drop_first()),
        }
    }
}

pub open spec fn is_failure(i: StreamItem) -> bool {
    i is Failure
}

pub open spec fn is_text(i: StreamItem) -> bool {
    i is Text
}

proof fn lemma_joined_prepend(t: Seq<char>, f: Seq<Result<Seq<char>, Seq<char>>>)
    ensures
        joined_fragments(seq![Ok(t)] + f) == t + joined_fragments(f),
{
    assert((seq![Ok(t)] + f).drop_first() =~= f);
}

/// On a stream without failure, the fragments joined in order are exactly
/// the assistant's text.
pub proof fn lemma_text_stream_fragments(items: Seq<StreamItem>)
    requires
        forall|i: int| 0 <= i < items.len() ==> !is_failure(#[trigger] items[i]),
    ensures
        joined_fragments(fragments_of(items)) == assistant_text(items),
        forall|i: int| 0 <= i < fragments_of(items).len() ==> #[trigger] fragments_of(items)[i] is Ok,
    decreases items.len(),
{
    if items.len() > 0 {
        let rest = items.drop_first();
        assert forall|i: int| 0 <= i < rest.len() implies !is_failure(#[trigger] rest[i]) by {
            assert(rest[i] == items[i + 1]);
        }
        assert(!is_failure(items[0]));
        lemma_text_stream_fragments(rest);
        match items[0] {
            StreamItem::Text(t) => {
                lemma_joined_prepend(t@, fragments_of(rest));
                let f = fragments_of(items);
                assert forall|i: int| 0 <= i < f.len() implies #[trigger] f[i] is Ok by {
                    if i > 0 {
                        assert(f[i] == fragments_of(rest)[i - 1]);
                    }
                }
            },
            _ => {},
        }
    }
}

/// A stream with no assistant text and no failure (tool-call deltas and
/// markers only) yields no fragment.
pub proof fn lemma_no_text_no_fragments(items: Seq<StreamItem>)
    requires
        forall|i: int|
            0 <= i < items.len() ==> !is_failure(#[trigger] items[i]) && !is_text(items[i]),
    ensures
        fragments_of(items).len() == 0,
    decreases items.len(),
{
    if items.len() > 0 {
        let rest = items.drop_first();
        assert forall|i: int|
            0 <= i < rest.len() implies !is_failure(#[trigger] rest[i]) && !is_text(rest[i]) by {
            assert(rest[i] == items[i + 1]);
        }
        assert(!is_failure(items[0]) && !is_text(items[0]));
        lemma_no_text_no_fragments(rest);
    }
}

/// The adapter's state while it reads a stream: whether a failure has ended
/// it.
#[derive(Debug)]
pub struct StreamAdapter {
    pub finished: bool,
}

impl StreamAdapter {
    pub fn new() -> (r: Self)
        ensures
            !r.finished,
    {
        StreamAdapter { finished: false }
    }

    /// Reads one item: the assistant's text is yielded, a failure is
    /// yielded as an error and ends the stream, anything else is dropped.
    /// Once ended, nothing more is yielded.
    pub fn next(&mut self, item: StreamItem) -> (r: Option<Result<String, String>>)
        ensures
            old(self).finished ==> r is None && final(self).finished,
            !old(self).finished ==> match item {
                StreamItem::Text(t) => r == Some(Ok::<String, String>(t)) && !final(self).finished,
                StreamItem::Failure(e) => r == Some(Err::<String, String>(e)) && final(self).finished,
                _ => r is None && !final(self).finished,
            },
    {
        if self.finished {
            return None;
        }
        match item {
            StreamItem::Text(t) => Some(Ok(t)),
            StreamItem::Failure(e) => {
                self.finished = true;
                Some(Err(e))
            },
            _ => None,
        }
    }
}

/// The view of yielded fragments.
pub open spec fn fragments_view(r: Seq<Result<String, String>>) -> Seq<Result<Seq<char>, Seq<char>>> {
    r.map_values(|x: Result<String, String>| match x {
        Ok(t) => Ok::<Seq<char>, Seq<char>>(t@),
        Err(e) => Err::<Seq<char>, Seq<char>>(e@),
    })
}

impl Clone for StreamItem {
    fn clone(&self) -> (r: Self)
        ensures
            r == *self,
    {
        match self {
            StreamItem::Text(t) => StreamItem::Text(t.clone()),
            StreamItem::ToolCall => StreamItem::ToolCall,
            StreamItem::ToolCallDelta => StreamItem::ToolCallDelta,
            StreamItem::Reasoning => StreamItem::Reasoning,
            StreamItem::AssistantFinal => StreamItem::AssistantFinal,
            StreamItem::UserItem => StreamItem::UserItem,
            StreamItem::FinalResponse => StreamItem::FinalResponse,
            StreamItem::Failure(e) => StreamItem::Failure(e.clone()),
        }
    }
}

/// The fragments of a whole stream.
pub fn fragments(items: &Vec<StreamItem>) -> (r: Vec<Result<String, String>>)
    ensures
        fragments_view(r@) == fragments_of(items@),
{
    let ghost all = items@;
    let mut adapter = StreamAdapter::new();
    let mut r: Vec<Result<String, String>> = Vec::new();
    let mut i: usize = 0;
    assert(all.subrange(0, all.len() as int) =~= all);
    assert(fragments_view(r@) =~= Seq::empty());
    while i < items.len()
        invariant
            all == items@,
            i <= all.len(),
            adapter.finished ==> fragments_of(all) == fragments_view(r@),
            !adapter.finished ==> fragments_of(all) == fragments_view(r@) + fragments_of(
                all.subrange(i as int, all.len() as int),
            ),
        decreases all.len() - i,
    {
        let item = items[i].clone();
        let ghost it = item;
        let ghost rest = all.subrange(i as int, all.len() as int);
        proof {
            assert(rest[0] == it);
            assert(rest.drop_first() =~= all.subrange(i + 1, all.len() as int));
        }
        let ghost before = r@;
        match adapter.next(item) {
            Some(x) => {
                r.push(x);
                proof {
                    assert(fragments_view(r@) =~= fragments_view(before) + seq![
                        match x {
                            Ok(t) => Ok::<Seq<char>, Seq<char>>(t@),
                            Err(e) => Err::<Seq<char>, Seq<char>>(e@),
                        },
                    ]);
                }
            },
            None => {},
        }
        proof {
            let ghost fv = fragments_view(before);
            if !adapter.finished {
                match it {
                    StreamItem::Text(t) => {
                        assert(fragments_of(rest) == seq![Ok::<Seq<char>, Seq<char>>(t@)]
                            + fragments_of(rest.drop_first()));
                        assert(fv + fragments_of(rest) =~= fragments_view(r@) + fragments_of(
                            rest.drop_first(),
                        ));
                    },
                    _ => {},
                }
            }
        }
        i = i + 1;
    }
    proof {
        if !adapter.finished {
            assert(all.subrange(i as int, all.len() as int) =~= Seq::<StreamItem>::empty());
            assert(fragments_view(r@) + Seq::<Result<Seq<char>, Seq<char>>>::empty() =~= fragments_view(r@));
        }
    }
    r
}

} // verus!
