use vstd::prelude::*;

use crate::gemini::same_text;

verus! {

pub const DATA_PREFIX: &'static str = "data:";

pub const DONE_MARKER: &'static str = "[DONE]";

/// What one line of an event stream carries.
#[derive(Clone, Debug)]
pub enum SseLine {
    /// The payload of a `data:` line.
    Data(String),
    /// The `data: [DONE]` line that ends the stream.
    Done,
    /// Any other line: a comment, an event name, a blank separator.
    Skip,
}

/// The payload of a `data:` line, without the one space that may follow the
/// colon; `None` for any other line.
pub open spec fn sse_payload(line: Seq<char>) -> Option<Seq<char>> {
    if line.len() >= DATA_PREFIX@.len() && line.subrange(0, DATA_PREFIX@.len() as int)
        == DATA_PREFIX@ {
        let rest = line.subrange(DATA_PREFIX@.len() as int, line.len() as int);
        if rest.len() > 0 && rest[0] == ' ' {
            Some(rest.drop_first())
        } else {
            Some(rest)
        }
    } else {
        None
    }
}

/// Reads one line of an event stream.
pub fn classify_sse_line(line: &str) -> (r: SseLine)
    ensures
        match sse_payload(line@) {
            None => r is Skip,
            Some(p) => if p == DONE_MARKER@ {
                r is Done
            } else {
                r matches SseLine::Data(d) && d@ == p
            },
        },
{
    let n: usize = line.unicode_len();
    let k: usize = DATA_PREFIX.unicode_len();
    if n < k || !same_text(line.substring_char(0, k), DATA_PREFIX) {
        return SseLine::Skip;
    }
    let start: usize = if k < n && line.get_char(k) == ' ' {
        k + 1
    } else {
        k
    };
    let payload = line.substring_char(start, n);
    assert(payload@ =~= sse_payload(line@).unwrap());
    if same_text(payload, DONE_MARKER) {
        SseLine::Done
    } else {
        SseLine::Data(String::from_str(payload))
    }
}

/// One incremental unit of a streamed completion.
#[derive(Clone, Debug)]
pub enum Delta {
    Text(String),
    ToolCall { id: String, name: String, arguments: String },
}

/// What the transport observed next on an open stream.
#[derive(Clone, Debug)]
pub enum WireEvent {
    /// A chunk that decoded into a delta.
    Chunk(Delta),
    /// The provider's end-of-stream signal.
    Done,
    /// The connection closed or failed before the end-of-stream signal.
    Disconnected,
    /// A chunk that could not be decoded, with the decoder's message.
    Undecodable(String),
    /// An error payload that the provider sent mid-stream.
    ProviderError(String),
}

/// Why a stream ended without completing.
#[derive(Clone, Debug)]
pub enum StreamError {
    Disconnected,
    Decode(String),
    Provider(String),
}

/// What the caller of a stream receives, in order.
#[derive(Clone, Debug)]
pub enum StreamItem {
    Delta(Delta),
    Completed,
    Failed(StreamError),
}

/// Where a stream stands.
#[derive(Clone, Copy, Debug, PartialEq, Eq, Structural)]
pub enum StreamPhase {
    Streaming,
    Completed,
    Failed,
}

/// What one decoded chunk means: an error payload ends the stream, a tool
/// call comes before text, and a chunk with neither carries nothing.
pub open spec fn chunk_event_of(
    error: Option<String>,
    tool_call: Option<(String, String, String)>,
    content: Option<String>,
) -> Option<WireEvent> {
    match error {
        Some(m) => Some(WireEvent::ProviderError(m)),
        None => match tool_call {
            Some(t) => Some(WireEvent::Chunk(Delta::ToolCall { id: t.0, name: t.1, arguments: t.2 })),
            None => match content {
                Some(c) => Some(WireEvent::Chunk(Delta::Text(c))),
                None => None,
            },
        },
    }
}

/// The event for one decoded chunk, from the fields found in it: the
/// provider's error message, the first tool call (id, name, arguments), and
/// the text content.
pub fn chunk_event(
    error: Option<String>,
    tool_call: Option<(String, String, String)>,
    content: Option<String>,
) -> (r: Option<WireEvent>)
    ensures
        r == chunk_event_of(error, tool_call, content),
{
    match error {
        Some(m) => Some(WireEvent::ProviderError(m)),
        None => match tool_call {
            Some(t) => {
                let (id, name, arguments) = t;
                Some(WireEvent::Chunk(Delta::ToolCall { id, name, arguments }))
            },
            None => match content {
                Some(c) => Some(WireEvent::Chunk(Delta::Text(c))),
                None => None,
            },
        },
    }
}

/// The item a wire event becomes.
pub open spec fn item_for(e: WireEvent) -> StreamItem {
    match e {
        WireEvent::Chunk(d) => StreamItem::Delta(d),
        WireEvent::Done => StreamItem::Completed,
        WireEvent::Disconnected => StreamItem::Failed(StreamError::Disconnected),
        WireEvent::Undecodable(m) => StreamItem::Failed(StreamError::Decode(m)),
        WireEvent::ProviderError(m) => StreamItem::Failed(StreamError::Provider(m)),
    }
}

/// The phase a stream enters after the event `e`.
pub open spec fn phase_after(e: WireEvent) -> StreamPhase {
    match e {
        WireEvent::Chunk(_) => StreamPhase::Streaming,
        WireEvent::Done => StreamPhase::Completed,
        _ => StreamPhase::Failed,
    }
}

/// The items that a stream yields for the events it observes: one per chunk,
/// in order, up to and including the first event that ends it; nothing
/// after that.
pub open spec fn normalized(events: Seq<WireEvent>) -> Seq<StreamItem>
    decreases events.len(),
{
    if events.len() == 0 {
        Seq::empty()
    } else if events[0] is Chunk {
        seq![item_for(events[0])] + normalized(events.drop_first())
    } else {
        seq![item_for(events[0])]
    }
}

/// The events of a sequence of chunks.
pub open spec fn chunks(ds: Seq<Delta>) -> Seq<WireEvent> {
    ds.map_values(|d: Delta| WireEvent::Chunk(d))
}

/// The items of a sequence of deltas.
pub open spec fn deltas(ds: Seq<Delta>) -> Seq<StreamItem> {
    ds.map_values(|d: Delta| StreamItem::Delta(d))
}

/// Turns wire events into the canonical items of one stream.
#[derive(Debug)]
pub struct StreamNormalizer {
    pub phase: StreamPhase,
}

impl StreamNormalizer {
    /// A normalizer for a stream that has just opened.
    pub fn new() -> (r: StreamNormalizer)
        ensures
            r.phase == StreamPhase::Streaming,
    {
        StreamNormalizer { phase: StreamPhase::Streaming }
    }

    /// Whether the stream has ended, cleanly or not.
    pub fn is_finished(&self) -> (r: bool)
        ensures
            r == (self.phase != StreamPhase::Streaming),
    {
        !matches!(self.phase, StreamPhase::Streaming)
    }

    /// Takes the next event. While streaming, yields its item and moves to
    /// the phase it leads to; once ended, yields nothing and stays.
    pub fn on_event(&mut self, e: WireEvent) -> (r: Option<StreamItem>)
        ensures
            old(self).phase == StreamPhase::Streaming ==> r == Some(item_for(e))
                && final(self).phase == phase_after(e),
            old(self).phase != StreamPhase::Streaming ==> r is None
                && final(self).phase == old(self).phase,
    {
        if self.is_finished() {
            return None;
        }
        let item = match e {
            WireEvent::Chunk(d) => StreamItem::Delta(d),
            WireEvent::Done => {
                self.phase = StreamPhase::Completed;
                StreamItem::Completed
            },
            WireEvent::Disconnected => {
                self.phase = StreamPhase::Failed;
                StreamItem::Failed(StreamError::Disconnected)
            },
            WireEvent::Undecodable(m) => {
                self.phase = StreamPhase::Failed;
                StreamItem::Failed(StreamError::Decode(m))
            },
            WireEvent::ProviderError(m) => {
                self.phase = StreamPhase::Failed;
                StreamItem::Failed(StreamError::Provider(m))
            },
        };
        Some(item)
    }
}

/// The items of one stream that observes `events` in order.
pub fn normalize(events: Vec<WireEvent>) -> (r: Vec<StreamItem>)
    ensures
        r@ == normalized(events@),
{
    let ghost all = events@;
    let mut rest = events;
    let mut out: Vec<StreamItem> = Vec::new();
    let mut n = StreamNormalizer::new();
    while rest.len() > 0
        invariant
            n.phase == StreamPhase::Streaming,
            all == events@,
            out@ + normalized(rest@) == normalized(all),
        decreases rest@.len(),
    {
        let ghost before = rest@;
        let e = rest.remove(0);
        assert(rest@ =~= before.drop_first());
        match n.on_event(e) {
            Some(item) => out.push(item),
            None => {},
        }
        if n.is_finished() {
            assert(out@ =~= normalized(all));
            return out;
        }
        assert(out@ + normalized(rest@) =~= normalized(all));
    }
    assert(out@ =~= normalized(all));
    out
}

/// A stream that receives chunks and then the end-of-stream signal yields
/// one delta per chunk, in order, then a single completed marker; whatever
/// follows the signal is not yielded.
pub proof fn lemma_chunks_then_done(ds: Seq<Delta>, after: Seq<WireEvent>)
    ensures
        normalized(chunks(ds) + seq![WireEvent::Done] + after) == deltas(ds) + seq![
            StreamItem::Completed,
        ],
    decreases ds.len(),
{
    let es = chunks(ds) + seq![WireEvent::Done] + after;
    if ds.len() == 0 {
        assert(es[0] == WireEvent::Done);
        assert(deltas(ds) + seq![StreamItem::Completed] =~= seq![StreamItem::Completed]);
    } else {
        let tail = ds.drop_first();
        assert(es.drop_first() =~= chunks(tail) + seq![WireEvent::Done] + after);
        lemma_chunks_then_done(tail, after);
        assert(deltas(ds) + seq![StreamItem::Completed] =~= seq![StreamItem::Delta(ds[0])] + (
        deltas(tail) + seq![StreamItem::Completed]));
    }
}

/// A stream that receives chunks and then loses its connection, fails to
/// decode a chunk or receives a provider error yields the chunks' deltas,
/// in order, then a failure marker, and never a completed marker.
pub proof fn lemma_chunks_then_failure(ds: Seq<Delta>, failure: WireEvent, after: Seq<WireEvent>)
    requires
        !(failure is Chunk),
        !(failure is Done),
    ensures
        normalized(chunks(ds) + seq![failure] + after) == deltas(ds) + seq![item_for(failure)],
        item_for(failure) is Failed,
        forall|i: int|
            0 <= i < normalized(chunks(ds) + seq![failure] + after).len() ==> !(
            #[trigger] normalized(chunks(ds) + seq![failure] + after)[i] is Completed),
    decreases ds.len(),
{
    let es = chunks(ds) + seq![failure] + after;
    if ds.len() == 0 {
        assert(es[0] == failure);
        assert(deltas(ds) + seq![item_for(failure)] =~= seq![item_for(failure)]);
    } else {
        let tail = ds.drop_first();
        assert(es.drop_first() =~= chunks(tail) + seq![failure] + after);
        lemma_chunks_then_failure(tail, failure, after);
        assert(deltas(ds) + seq![item_for(failure)] =~= seq![StreamItem::Delta(ds[0])] + (deltas(
            tail,
        ) + seq![item_for(failure)]));
    }
    let r = deltas(ds) + seq![item_for(failure)];
    assert forall|i: int| 0 <= i < r.len() implies !(#[trigger] r[i] is Completed) by {
        if i < ds.len() {
            assert(r[i] == StreamItem::Delta(ds[i]));
        }
    }
}

/// Items once delivered are never taken back: what a stream yields for the
/// first `k` events is a prefix of what it yields for all of them.
pub proof fn lemma_delivered_items_kept(events: Seq<WireEvent>, k: int)
    requires
        0 <= k <= events.len(),
    ensures
        normalized(events.subrange(0, k)).len() <= normalized(events).len(),
        normalized(events.subrange(0, k)) == normalized(events).subrange(
            0,
            normalized(events.subrange(0, k)).len() as int,
        ),
    decreases k,
{
    let sub = events.subrange(0, k);
    if k == 0 {
        assert(sub =~= Seq::<WireEvent>::empty());
        assert(normalized(events).subrange(0, 0) =~= Seq::<StreamItem>::empty());
    } else {
        assert(sub[0] == events[0]);
        if events[0] is Chunk {
            let rest = events.drop_first();
            assert(sub.drop_first() =~= rest.subrange(0, k - 1));
            lemma_delivered_items_kept(rest, k - 1);
            let a = normalized(rest.subrange(0, k - 1));
            let b = normalized(rest);
            assert(normalized(sub) =~= seq![item_for(events[0])] + a);
            assert(normalized(events) =~= seq![item_for(events[0])] + b);
            assert(normalized(sub) =~= normalized(events).subrange(0, normalized(sub).len() as int));
        } else {
            assert(normalized(sub) =~= normalized(events).subrange(0, 1));
        }
    }
}

} // verus!
