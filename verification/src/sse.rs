//! The decoder for streams of server-sent events.
//!
//! A stream arrives as chunks of bytes, cut at arbitrary places. The decoder
//! keeps what is left of an unfinished line until the rest arrives. Each
//! finished line that starts with `data: ` carries one task event as JSON,
//! but for the line `data: [DONE]`, which ends the stream: nothing that
//! follows it is read. A line whose payload is no task event yields one
//! error, and decoding goes on with the next line.

use crate::client::stream_read_failed;
use crate::error::{A2AError, A2AErrorView};
use crate::json::{parsed, text_refusal, Json};
use crate::task::{TaskEvent, TaskEventView};
use crate::wire::Wire;
use vstd::prelude::*;
use vstd::slice::slice_subrange;

verus! {

/// The byte that ends a line.
pub const LINE_FEED: u8 = 0x0a;

/// The byte that may stand before the line feed.
pub const CARRIAGE_RETURN: u8 = 0x0d;

/// The bytes of `data: `, which start a line that carries a payload.
pub open spec fn data_prefix() -> Seq<u8> {
    seq![0x64u8, 0x61u8, 0x74u8, 0x61u8, 0x3au8, 0x20u8]
}

/// The bytes of `[DONE]`, the payload that ends the stream.
pub open spec fn done_mark() -> Seq<u8> {
    seq![0x5bu8, 0x44u8, 0x4fu8, 0x4eu8, 0x45u8, 0x5du8]
}

/// The lines that `bytes` holds in full, each without its line feed.
pub open spec fn complete_lines(bytes: Seq<u8>) -> Seq<Seq<u8>>
    decreases bytes.len(),
{
    if bytes.len() == 0 {
        Seq::empty()
    } else if bytes.last() == LINE_FEED {
        complete_lines(bytes.drop_last()).push(unfinished(bytes.drop_last()))
    } else {
        complete_lines(bytes.drop_last())
    }
}

/// What follows the last line feed of `bytes`: the start of a line that has
/// not ended yet.
pub open spec fn unfinished(bytes: Seq<u8>) -> Seq<u8>
    decreases bytes.len(),
{
    if bytes.len() == 0 {
        Seq::empty()
    } else if bytes.last() == LINE_FEED {
        Seq::empty()
    } else {
        unfinished(bytes.drop_last()).push(bytes.last())
    }
}

/// The bytes that some lines and an unfinished rest were cut from: each
/// line followed by a line feed, and then the rest.
pub open spec fn rejoined(lines: Seq<Seq<u8>>, rest: Seq<u8>) -> Seq<u8>
    decreases lines.len(),
{
    if lines.len() == 0 {
        rest
    } else {
        rejoined(lines.drop_last(), lines.last() + seq![LINE_FEED] + rest)
    }
}

/// Cutting bytes into lines loses nothing and puts no line feed into a line:
/// the lines, each with a line feed behind it, followed by the unfinished
/// rest, are the bytes again.
pub proof fn lemma_lines_rejoin(bytes: Seq<u8>)
    ensures
        rejoined(complete_lines(bytes), unfinished(bytes)) == bytes,
        !unfinished(bytes).contains(LINE_FEED),
        forall|k: int|
            0 <= k < complete_lines(bytes).len() ==> !(#[trigger] complete_lines(bytes)[k]).contains(
                LINE_FEED,
            ),
    decreases bytes.len(),
{
    if bytes.len() == 0 {
    } else {
        let before = bytes.drop_last();
        lemma_lines_rejoin(before);
        lemma_rejoined_grows(complete_lines(before), unfinished(before), seq![bytes.last()]);
        if bytes.last() == LINE_FEED {
            let lines = complete_lines(bytes);
            assert(lines.drop_last() =~= complete_lines(before));
            assert(lines.last() + seq![LINE_FEED] + Seq::<u8>::empty() =~= unfinished(before)
                + seq![bytes.last()]);
            assert(before + seq![bytes.last()] =~= bytes);
        } else {
            assert(unfinished(before) + seq![bytes.last()] =~= unfinished(bytes));
            assert(before + seq![bytes.last()] =~= bytes);
            let rest = unfinished(bytes);
            assert forall|k: int| 0 <= k < rest.len() implies rest[k] != LINE_FEED by {
                if k < rest.len() - 1 {
                    assert(unfinished(before).contains(rest[k]));
                }
            }
        }
    }
}

/// What is rejoined grows at its end by what the rest grows by.
pub proof fn lemma_rejoined_grows(lines: Seq<Seq<u8>>, rest: Seq<u8>, more: Seq<u8>)
    ensures
        rejoined(lines, rest + more) == rejoined(lines, rest) + more,
    decreases lines.len(),
{
    if lines.len() == 0 {
    } else {
        lemma_rejoined_grows(
            lines.drop_last(),
            lines.last() + seq![LINE_FEED] + rest,
            more,
        );
        assert(lines.last() + seq![LINE_FEED] + (rest + more) =~= lines.last() + seq![LINE_FEED]
            + rest + more);
    }
}

/// A line without the carriage return that may end it.
pub open spec fn without_return(line: Seq<u8>) -> Seq<u8> {
    if line.len() > 0 && line.last() == CARRIAGE_RETURN {
        line.drop_last()
    } else {
        line
    }
}

/// The text that std reads from bytes when it replaces what is not UTF-8 by
/// the replacement character.
pub uninterp spec fn lossy_text(bytes: Seq<u8>) -> Seq<char>;

/// `String::from_utf8_lossy` of std: the text of the bytes, with the
/// replacement character in place of what is not UTF-8. Bytes that are
/// UTF-8 give the text that they encode.
#[verifier::external_body]
fn read_lossy(bytes: &[u8]) -> (r: String)
    ensures
        r@ == lossy_text(bytes@),
        vstd::utf8::valid_utf8(bytes@) ==> r@ == vstd::utf8::decode_utf8(bytes@),
{
    String::from_utf8_lossy(bytes).into_owned()
}

/// The event that a payload carries, or the error that stands for a payload
/// that carries none.
pub open spec fn event_of_text(text: Seq<char>) -> Result<TaskEventView, A2AErrorView> {
    match parsed(text) {
        None => Err(
            A2AErrorView::StreamingError("Failed to parse SSE event: "@ + text_refusal(text)),
        ),
        Some(j) => match TaskEvent::decode(j) {
            Some(event) => Ok(event),
            None => Err(
                A2AErrorView::StreamingError("Failed to parse SSE event: not a task event"@),
            ),
        },
    }
}

/// What a line of a stream means.
#[derive(Debug, PartialEq)]
pub enum SseLine {
    /// The line carries nothing for the decoder.
    Skip,
    /// The line ends the stream.
    Done,
    /// The line carries an event, or a payload that is none.
    Item(Result<TaskEvent, A2AError>),
}

/// The model of an [`SseLine`].
pub enum SseLineView {
    Skip,
    Done,
    Item(Result<TaskEventView, A2AErrorView>),
}

/// The model of one decoded item.
pub open spec fn item_view(item: Result<TaskEvent, A2AError>) -> Result<
    TaskEventView,
    A2AErrorView,
> {
    match item {
        Ok(event) => Ok(event@),
        Err(error) => Err(error@),
    }
}

/// The models of decoded items.
pub open spec fn items_view(items: Seq<Result<TaskEvent, A2AError>>) -> Seq<
    Result<TaskEventView, A2AErrorView>,
> {
    Seq::new(items.len(), |i: int| item_view(items[i]))
}

impl View for SseLine {
    type V = SseLineView;

    open spec fn view(&self) -> SseLineView {
        match self {
            SseLine::Skip => SseLineView::Skip,
            SseLine::Done => SseLineView::Done,
            SseLine::Item(item) => SseLineView::Item(item_view(*item)),
        }
    }
}

/// What a line means, given without its line ending.
pub open spec fn line_meaning(line: Seq<u8>) -> SseLineView {
    if data_prefix().is_prefix_of(line) {
        let payload = line.skip(6);
        if payload == done_mark() {
            SseLineView::Done
        } else {
            SseLineView::Item(event_of_text(lossy_text(payload)))
        }
    } else {
        SseLineView::Skip
    }
}

/// What has been read once some lines went by: the items so far, and
/// whether the stream has ended. Each line is given as it stood before its
/// line feed; a carriage return at its end does not count.
pub open spec fn after_lines(lines: Seq<Seq<u8>>) -> (
    Seq<Result<TaskEventView, A2AErrorView>>,
    bool,
)
    decreases lines.len(),
{
    if lines.len() == 0 {
        (Seq::empty(), false)
    } else {
        let before = after_lines(lines.drop_last());
        if before.1 {
            before
        } else {
            match line_meaning(without_return(lines.last())) {
                SseLineView::Skip => before,
                SseLineView::Done => (before.0, true),
                SseLineView::Item(item) => (before.0.push(item), false),
            }
        }
    }
}

/// Whether `line` starts with `prefix`.
fn starts_with(line: &[u8], prefix: &[u8]) -> (r: bool)
    ensures
        r == prefix@.is_prefix_of(line@),
{
    if prefix.len() > line.len() {
        return false;
    }
    let mut i: usize = 0;
    while i < prefix.len()
        invariant
            i <= prefix.len() <= line.len(),
            forall|k: int| 0 <= k < i ==> line[k] == prefix[k],
        decreases prefix.len() - i,
    {
        if line[i] != prefix[i] {
            assert(line@.subrange(0, prefix@.len() as int)[i as int] != prefix@[i as int]);
            return false;
        }
        i = i + 1;
    }
    assert(line@.subrange(0, prefix@.len() as int) =~= prefix@);
    true
}

/// Whether two runs of bytes are the same.
fn same_bytes(a: &[u8], b: &[u8]) -> (r: bool)
    ensures
        r == (a@ == b@),
{
    if a.len() != b.len() {
        return false;
    }
    let mut i: usize = 0;
    while i < a.len()
        invariant
            i <= a.len(),
            a.len() == b.len(),
            forall|k: int| 0 <= k < i ==> a[k] == b[k],
        decreases a.len() - i,
    {
        if a[i] != b[i] {
            return false;
        }
        i = i + 1;
    }
    assert(a@ =~= b@);
    true
}

/// Reads the event that one payload carries.
pub fn parse_sse_event(data: &str) -> (r: Result<TaskEvent, A2AError>)
    ensures
        item_view(r) == event_of_text(data@),
{
    match Json::parse(data) {
        Err(refusal) => {
            let mut message = "Failed to parse SSE event: ".to_owned();
            message.append(refusal.as_str());
            Err(A2AError::StreamingError(message))
        },
        Ok(j) => match TaskEvent::from_json(&j) {
            Some(event) => Ok(event),
            None => Err(
                A2AError::StreamingError("Failed to parse SSE event: not a task event".to_owned()),
            ),
        },
    }
}

/// Reads one line, given without its line ending.
pub fn read_line(line: &[u8]) -> (r: SseLine)
    ensures
        r@ == line_meaning(line@),
{
    let prefix: [u8; 6] = [0x64, 0x61, 0x74, 0x61, 0x3a, 0x20];
    let mark: [u8; 6] = [0x5b, 0x44, 0x4f, 0x4e, 0x45, 0x5d];
    proof {
        assert(prefix@ =~= data_prefix());
        assert(mark@ =~= done_mark());
    }
    if !starts_with(line, prefix.as_slice()) {
        return SseLine::Skip;
    }
    let payload = slice_subrange(line, 6, line.len());
    proof {
        assert(payload@ =~= line@.skip(6));
    }
    if same_bytes(payload, mark.as_slice()) {
        return SseLine::Done;
    }
    let text = read_lossy(payload);
    SseLine::Item(parse_sse_event(text.as_str()))
}

/// A line without the carriage return that may end it.
fn trim_return(line: &[u8]) -> (r: &[u8])
    ensures
        r@ == without_return(line@),
{
    let n = line.len();
    if n > 0 && line[n - 1] == CARRIAGE_RETURN {
        let r = slice_subrange(line, 0, n - 1);
        assert(r@ =~= line@.drop_last());
        r
    } else {
        line
    }
}

/// The decoder of one stream.
#[derive(Debug, Clone, PartialEq)]
pub struct SseDecoder {
    /// The start of a line whose end has not arrived yet.
    pub pending: Vec<u8>,
    /// Whether the stream has ended.
    pub done: bool,
}

/// The model of an [`SseDecoder`].
pub struct SseDecoderView {
    pub pending: Seq<u8>,
    pub done: bool,
}

impl View for SseDecoder {
    type V = SseDecoderView;

    open spec fn view(&self) -> SseDecoderView {
        SseDecoderView { pending: self.pending@, done: self.done }
    }
}

impl SseDecoderView {
    /// The decoder after one more chunk, and the items that the chunk
    /// completes. A stream that has ended takes no more input.
    pub open spec fn fed(self, chunk: Seq<u8>) -> (SseDecoderView, Seq<Result<TaskEventView, A2AErrorView>>) {
        if self.done {
            (self, Seq::empty())
        } else {
            let all = self.pending + chunk;
            let read = after_lines(complete_lines(all));
            (
                SseDecoderView {
                    pending: if read.1 {
                        Seq::empty()
                    } else {
                        unfinished(all)
                    },
                    done: read.1,
                },
                read.0,
            )
        }
    }

    /// The items that are left when the stream's bytes have run out: a last
    /// line counts though no line feed ends it.
    pub open spec fn finished(self) -> Seq<Result<TaskEventView, A2AErrorView>> {
        if self.done || self.pending.len() == 0 {
            Seq::empty()
        } else {
            match line_meaning(self.pending) {
                SseLineView::Item(item) => seq![item],
                _ => Seq::empty(),
            }
        }
    }

    /// What follows a report of a stream's reader: the decoder afterwards,
    /// the items to hand out, and whether to go on reading. A chunk is
    /// decoded, and reading goes on unless it ended the stream. A failed
    /// read gives one error, and reading goes on. At the end of the bytes
    /// what is left is handed out. A stream that has ended takes no report.
    pub open spec fn stepped(self, event: StreamEventView) -> (
        SseDecoderView,
        Seq<Result<TaskEventView, A2AErrorView>>,
        bool,
    ) {
        if self.done {
            (self, Seq::empty(), false)
        } else {
            match event {
                StreamEventView::Chunk(bytes) => (
                    self.fed(bytes).0,
                    self.fed(bytes).1,
                    !self.fed(bytes).0.done,
                ),
                StreamEventView::ReadFailed(reason) => (
                    self,
                    seq![
                        Err(A2AErrorView::StreamingError("Stream read error: "@ + reason)),
                    ],
                    true,
                ),
                StreamEventView::Ended => (
                    SseDecoderView { pending: Seq::empty(), done: true },
                    self.finished(),
                    false,
                ),
            }
        }
    }
}

/// What the reader of a stream's bytes reports.
#[derive(Debug, Clone, PartialEq)]
pub enum StreamEvent {
    /// Some more bytes have arrived.
    Chunk(Vec<u8>),
    /// A read failed, for the reason given.
    ReadFailed(String),
    /// The bytes have run out.
    Ended,
}

/// The model of a [`StreamEvent`].
pub enum StreamEventView {
    Chunk(Seq<u8>),
    ReadFailed(Seq<char>),
    Ended,
}

impl View for StreamEvent {
    type V = StreamEventView;

    open spec fn view(&self) -> StreamEventView {
        match self {
            StreamEvent::Chunk(bytes) => StreamEventView::Chunk(bytes@),
            StreamEvent::ReadFailed(reason) => StreamEventView::ReadFailed(reason@),
            StreamEvent::Ended => StreamEventView::Ended,
        }
    }
}

/// Bytes without a line feed hold no complete line: all of them are
/// unfinished.
pub proof fn lemma_no_feed_no_line(bytes: Seq<u8>)
    requires
        !bytes.contains(LINE_FEED),
    ensures
        complete_lines(bytes) == Seq::<Seq<u8>>::empty(),
        unfinished(bytes) == bytes,
    decreases bytes.len(),
{
    if bytes.len() > 0 {
        let before = bytes.drop_last();
        assert(bytes[bytes.len() - 1] != LINE_FEED);
        assert forall|k: int| 0 <= k < before.len() implies before[k] != LINE_FEED by {
            assert(bytes[k] != LINE_FEED);
        }
        lemma_no_feed_no_line(before);
        assert(before.push(bytes.last()) =~= bytes);
    } else {
        assert(unfinished(bytes) =~= bytes);
    }
}

/// The lines of bytes that arrive in two pieces: the lines of the first
/// piece, then the lines of what the first piece left unfinished together
/// with the second piece.
pub proof fn lemma_lines_in_pieces(first: Seq<u8>, second: Seq<u8>)
    ensures
        complete_lines(first + second) == complete_lines(first) + complete_lines(
            unfinished(first) + second,
        ),
        unfinished(first + second) == unfinished(unfinished(first) + second),
    decreases second.len(),
{
    let rest = unfinished(first);
    if second.len() == 0 {
        lemma_lines_rejoin(first);
        lemma_no_feed_no_line(rest);
        assert(first + second =~= first);
        assert(rest + second =~= rest);
        assert(complete_lines(first) + Seq::<Seq<u8>>::empty() =~= complete_lines(first));
    } else {
        let shorter = second.drop_last();
        lemma_lines_in_pieces(first, shorter);
        assert((first + second).drop_last() =~= first + shorter);
        assert((rest + second).drop_last() =~= rest + shorter);
        assert((first + second).last() == second.last());
        assert((rest + second).last() == second.last());
        if second.last() == LINE_FEED {
            assert(complete_lines(first + second) =~= complete_lines(first) + complete_lines(
                rest + second,
            ));
        }
    }
}

/// What has been read after two runs of lines: where the first run ended
/// the stream, what had been read after it; else the items of both runs.
pub proof fn lemma_after_more_lines(first: Seq<Seq<u8>>, second: Seq<Seq<u8>>)
    ensures
        after_lines(first + second) == if after_lines(first).1 {
            after_lines(first)
        } else {
            (after_lines(first).0 + after_lines(second).0, after_lines(second).1)
        },
    decreases second.len(),
{
    if second.len() == 0 {
        assert(first + second =~= first);
        assert(after_lines(first).0 + Seq::<Result<TaskEventView, A2AErrorView>>::empty()
            =~= after_lines(first).0);
    } else {
        let shorter = second.drop_last();
        lemma_after_more_lines(first, shorter);
        assert((first + second).drop_last() =~= first + shorter);
        assert((first + second).last() == second.last());
        let one = after_lines(first);
        let two = after_lines(shorter);
        if !one.1 && !two.1 {
            match line_meaning(without_return(second.last())) {
                SseLineView::Item(item) => {
                    assert((one.0 + two.0).push(item) =~= one.0 + two.0.push(item));
                },
                _ => {},
            }
        }
    }
}

/// It makes no difference where a stream is cut into chunks: feeding two
/// chunks one after the other gives the items, in order, and leaves the
/// decoder in the state, that feeding them as one chunk gives.
pub proof fn lemma_feed_in_pieces(state: SseDecoderView, first: Seq<u8>, second: Seq<u8>)
    ensures
        state.fed(first + second).0 == state.fed(first).0.fed(second).0,
        state.fed(first + second).1 == state.fed(first).1 + state.fed(first).0.fed(second).1,
{
    if state.done {
        assert(state.fed(first).1 + state.fed(first).0.fed(second).1 =~= Seq::empty());
    } else {
        let all = state.pending + first;
        assert(state.pending + (first + second) =~= all + second);
        lemma_lines_in_pieces(all, second);
        lemma_after_more_lines(complete_lines(all), complete_lines(unfinished(all) + second));
        let read = after_lines(complete_lines(all));
        if read.1 {
            assert(read.0 + Seq::<Result<TaskEventView, A2AErrorView>>::empty() =~= read.0);
        }
    }
}

impl SseDecoder {
    /// A decoder at the start of a stream.
    pub fn new() -> (r: SseDecoder)
        ensures
            r@ == (SseDecoderView { pending: Seq::empty(), done: false }),
    {
        SseDecoder { pending: Vec::new(), done: false }
    }

    /// Whether the stream has ended.
    pub fn is_done(&self) -> (r: bool)
        ensures
            r == self@.done,
    {
        self.done
    }

    /// Takes one more chunk of the stream and hands out the items that it
    /// completes, in the order of their lines.
    pub fn feed(&mut self, chunk: &[u8]) -> (items: Vec<Result<TaskEvent, A2AError>>)
        ensures
            final(self)@ == old(self)@.fed(chunk@).0,
            items_view(items@) == old(self)@.fed(chunk@).1,
    {
        let mut items: Vec<Result<TaskEvent, A2AError>> = Vec::new();
        if self.done {
            assert(items_view(items@) =~= Seq::empty());
            return items;
        }
        let mut all: Vec<u8> = Vec::new();
        all.extend_from_slice(self.pending.as_slice());
        all.extend_from_slice(chunk);
        assert(all@ =~= old(self)@.pending + chunk@);
        let mut done = false;
        let mut start: usize = 0;
        let mut i: usize = 0;
        proof {
            assert(all@.take(0) =~= Seq::empty());
            assert(items_view(items@) =~= Seq::empty());
        }
        while i < all.len()
            invariant
                start <= i <= all.len(),
                all@.subrange(start as int, i as int) == unfinished(all@.take(i as int)),
                (items_view(items@), done) == after_lines(complete_lines(all@.take(i as int))),
            decreases all.len() - i,
        {
            proof {
                assert(all@.take(i + 1).drop_last() =~= all@.take(i as int));
                assert(all@.take(i + 1).last() == all@[i as int]);
            }
            if all[i] == LINE_FEED {
                let ghost lines = complete_lines(all@.take(i + 1));
                proof {
                    assert(lines.drop_last() =~= complete_lines(all@.take(i as int)));
                    assert(lines.last() == all@.subrange(start as int, i as int));
                }
                if !done {
                    let line = slice_subrange(all.as_slice(), start, i);
                    match read_line(trim_return(line)) {
                        SseLine::Skip => {},
                        SseLine::Done => {
                            done = true;
                        },
                        SseLine::Item(item) => {
                            let ghost before = items_view(items@);
                            items.push(item);
                            proof {
                                assert(items_view(items@) =~= before.push(item_view(item)));
                            }
                        },
                    }
                }
                start = i + 1;
                proof {
                    assert(all@.subrange(start as int, i + 1) =~= Seq::empty());
                }
            } else {
                proof {
                    assert(all@.subrange(start as int, i + 1) =~= all@.subrange(
                        start as int,
                        i as int,
                    ).push(all@[i as int]));
                }
            }
            i = i + 1;
        }
        proof {
            assert(all@.take(all.len() as int) =~= all@);
        }
        let mut rest: Vec<u8> = Vec::new();
        if !done {
            rest.extend_from_slice(slice_subrange(all.as_slice(), start, all.len()));
            assert(rest@ =~= unfinished(all@));
        }
        self.pending = rest;
        self.done = done;
        items
    }

    /// Takes one report of the stream's reader, and hands out the items
    /// that follow from it and whether to go on reading.
    pub fn step(&mut self, event: StreamEvent) -> (r: (Vec<Result<TaskEvent, A2AError>>, bool))
        ensures
            final(self)@ == old(self)@.stepped(event@).0,
            items_view(r.0@) == old(self)@.stepped(event@).1,
            r.1 == old(self)@.stepped(event@).2,
    {
        if self.done {
            let items: Vec<Result<TaskEvent, A2AError>> = Vec::new();
            assert(items_view(items@) =~= Seq::empty());
            return (items, false);
        }
        match event {
            StreamEvent::Chunk(bytes) => {
                let items = self.feed(bytes.as_slice());
                let go_on = !self.done;
                (items, go_on)
            },
            StreamEvent::ReadFailed(reason) => {
                let mut items: Vec<Result<TaskEvent, A2AError>> = Vec::new();
                let failure = stream_read_failed(reason.as_str());
                items.push(Err(failure));
                assert(items_view(items@) =~= seq![
                    Err(A2AErrorView::StreamingError("Stream read error: "@ + reason@)),
                ]);
                (items, true)
            },
            StreamEvent::Ended => {
                let items = self.finish();
                (items, false)
            },
        }
    }

    /// Ends the stream: hands out the item of a last line that no line feed
    /// ended, if there is one, and takes no more input afterwards.
    pub fn finish(&mut self) -> (items: Vec<Result<TaskEvent, A2AError>>)
        ensures
            final(self)@ == (SseDecoderView { pending: Seq::empty(), done: true }),
            items_view(items@) == old(self)@.finished(),
    {
        let mut items: Vec<Result<TaskEvent, A2AError>> = Vec::new();
        if !self.done && self.pending.len() > 0 {
            match read_line(self.pending.as_slice()) {
                SseLine::Item(item) => {
                    items.push(item);
                    proof {
                        assert(items_view(items@) =~= seq![item_view(item)]);
                    }
                },
                _ => {
                    assert(items_view(items@) =~= Seq::empty());
                },
            }
        } else {
            assert(items_view(items@) =~= Seq::empty());
        }
        self.pending = Vec::new();
        self.done = true;
        items
    }
}

} // verus!
