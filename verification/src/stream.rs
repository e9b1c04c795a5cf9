//! The decoder of streamed text generation.
//!
//! The gateway streams its answer as lines of the form `data: <payload>`, the
//! payload being a JSON document or the end marker `[DONE]`. The bytes arrive
//! in chunks, and a chunk may end in the middle of a line, or of a character.
//! The decoder therefore holds the bytes behind the last line feed it has
//! seen. With each chunk it takes the held bytes and the chunk together, reads
//! the lines that are complete, and holds the rest for the next chunk; when the
//! stream ends, what is still held is read as the last line. The complete
//! lines of one chunk are scanned in order until one of them ends the stream
//! or yields a fragment: a chunk yields at most one fragment, and the complete
//! lines behind that one are passed over. After the end marker the decoder
//! yields no fragment any more.

use vstd::prelude::*;
use crate::error::{ErrorView, GatewayError};
use crate::json::{as_text, element, json_of, json_parse, member, parse_value, Json};
use crate::text::{
    chars_of, decode_lossy, lemma_line_end_is, lines_of, lossy_text, matches_at, occurs_at,
    same_text, without_return,
};
use crate::types::opt_text;

verus! {

/// What one line, or one chunk, of the stream amounts to.
#[derive(Debug, Clone, PartialEq)]
pub enum Outcome {
    /// A piece of generated text.
    Fragment(String),
    /// The end marker.
    Done,
    /// Nothing to hand on.
    Nothing,
}

/// An outcome as a mathematical value.
pub enum OutcomeView {
    Fragment(Seq<char>),
    Done,
    Nothing,
}

impl View for Outcome {
    type V = OutcomeView;

    open spec fn view(&self) -> OutcomeView {
        match self {
            Outcome::Fragment(s) => OutcomeView::Fragment(s@),
            Outcome::Done => OutcomeView::Done,
            Outcome::Nothing => OutcomeView::Nothing,
        }
    }
}

/// The text that a streamed event carries: the content of the delta of its
/// first choice, where that is a string.
pub open spec fn delta_text(event: Json) -> Option<Seq<char>> {
    event.member("choices"@).element(0).member("delta"@).member("content"@).as_text()
}

/// The payload of an event line: what follows `data: `.
pub open spec fn payload_of(line: Seq<char>) -> Option<Seq<char>> {
    if occurs_at(line, "data: "@, 0) {
        Some(line.skip(6))
    } else {
        None
    }
}

/// What a payload amounts to, given the document it parses to.
pub open spec fn payload_outcome(payload: Seq<char>, parsed: Option<Json>) -> OutcomeView {
    if payload == "[DONE]"@ {
        OutcomeView::Done
    } else {
        match parsed {
            Some(event) => match delta_text(event) {
                Some(text) => OutcomeView::Fragment(text),
                None => OutcomeView::Nothing,
            },
            None => OutcomeView::Nothing,
        }
    }
}

/// What a line amounts to.
pub open spec fn line_outcome(line: Seq<char>) -> OutcomeView {
    match payload_of(line) {
        Some(payload) => payload_outcome(payload, json_parse(payload)),
        None => OutcomeView::Nothing,
    }
}

/// What a run of lines amounts to: the outcome of the first line that has one.
pub open spec fn lines_outcome(lines: Seq<Seq<char>>) -> OutcomeView
    decreases lines.len(),
{
    if lines.len() == 0 {
        OutcomeView::Nothing
    } else {
        match line_outcome(lines[0]) {
            OutcomeView::Nothing => lines_outcome(lines.drop_first()),
            outcome => outcome,
        }
    }
}

/// What a text amounts to: the outcome of its first line that has one.
pub open spec fn text_outcome(text: Seq<char>) -> OutcomeView {
    lines_outcome(lines_of(text))
}

/// What a run of bytes amounts to: the outcome of the text they encode.
pub open spec fn chunk_outcome(chunk: Seq<u8>) -> OutcomeView {
    text_outcome(lossy_text(chunk))
}

/// The text that a streamed event carries, if it carries one.
pub fn delta_content(event: &serde_json::Value) -> (content: Option<String>)
    ensures
        opt_text(content) == delta_text(json_of(*event)),
{
    let delta = member(element(member(event, "choices"), 0), "delta");
    match as_text(member(delta, "content")) {
        Some(text) => Some(text.to_owned()),
        None => None,
    }
}

/// What a payload amounts to, given the result of parsing it. The end marker
/// ends the stream whatever the parse said. Otherwise a parsed event yields its
/// text, and a payload that is no JSON, or carries no text, yields nothing.
pub fn outcome_of_payload(payload: &str, parsed: Option<&serde_json::Value>) -> (outcome: Outcome)
    ensures
        outcome@ == payload_outcome(
            payload@,
            match parsed {
                Some(event) => Some(json_of(*event)),
                None => None,
            },
        ),
{
    if same_text(payload, "[DONE]") {
        Outcome::Done
    } else {
        match parsed {
            Some(event) => match delta_content(event) {
                Some(text) => Outcome::Fragment(text),
                None => Outcome::Nothing,
            },
            None => Outcome::Nothing,
        }
    }
}

/// The payload of an event line, or `None` for a line that is no event.
pub fn data_payload(line: &str) -> (payload: Option<&str>)
    ensures
        payload is Some <==> payload_of(line@) is Some,
        payload matches Some(p) ==> payload_of(line@) == Some(p@),
{
    let cs = chars_of(line);
    let prefix = chars_of("data: ");
    proof {
        reveal_strlit("data: ");
    }
    if matches_at(&cs, &prefix, 0) {
        let n: usize = cs.len();
        let rest = line.substring_char(6, n);
        Some(rest)
    } else {
        None
    }
}

/// What a line amounts to.
pub fn decode_line(line: &str) -> (outcome: Outcome)
    ensures
        outcome@ == line_outcome(line@),
{
    match data_payload(line) {
        Some(payload) => {
            match parse_value(payload) {
                Ok(event) => outcome_of_payload(payload, Some(&event)),
                Err(_) => outcome_of_payload(payload, None),
            }
        },
        None => Outcome::Nothing,
    }
}

proof fn lemma_lines_step(s: Seq<char>, k: int)
    requires
        0 <= k <= s.len(),
        s.len() > 0,
        forall|j: int| 0 <= j < k ==> s[j] != '\n',
        k < s.len() ==> s[k] == '\n',
    ensures
        k < s.len() ==> lines_of(s) == seq![without_return(s.take(k))] + lines_of(s.skip(k + 1)),
        k == s.len() ==> lines_of(s) == seq![s],
{
    lemma_line_end_is(s, k);
}

/// What a text amounts to: its lines are scanned in order, and the first that
/// ends the stream or yields a fragment decides.
pub fn scan_text(text: &str) -> (outcome: Outcome)
    ensures
        outcome@ == text_outcome(text@),
{
    let cs = chars_of(text);
    let n: usize = cs.len();
    let mut start: usize = 0;
    proof {
        assert(text@.skip(0) =~= text@);
    }
    while start < n
        invariant
            cs@ == text@,
            n == cs@.len(),
            start <= n,
            lines_outcome(lines_of(text@)) == lines_outcome(lines_of(text@.skip(start as int))),
        decreases n - start,
    {
        let mut end: usize = start;
        while end < n && cs[end] != '\n'
            invariant
                n == cs@.len(),
                start <= end <= n,
                forall|j: int| start <= j < end ==> cs@[j] != '\n',
            decreases n - end,
        {
            end = end + 1;
        }
        let ghost rest = text@.skip(start as int);
        proof {
            assert forall|j: int| 0 <= j < end - start implies rest[j] != '\n' by {
                assert(rest[j] == cs@[start + j]);
            }
            lemma_lines_step(rest, end - start);
        }
        let mut stop: usize = end;
        if end < n && end > start && cs[end - 1] == '\r' {
            stop = end - 1;
        }
        let line = text.substring_char(start, stop);
        let ghost lines = lines_of(rest);
        proof {
            if end < n {
                let raw = rest.take(end - start);
                assert(raw =~= text@.subrange(start as int, end as int));
                if end > start {
                    assert(raw.last() == cs@[end - 1]);
                }
                assert(without_return(raw) =~= text@.subrange(start as int, stop as int));
                assert(lines[0] == line@);
                assert(lines.drop_first() =~= lines_of(rest.skip(end - start + 1)));
                assert(rest.skip(end - start + 1) =~= text@.skip(end + 1));
            } else {
                assert(rest =~= text@.subrange(start as int, stop as int));
                assert(lines[0] == line@);
                assert(lines.drop_first() =~= Seq::<Seq<char>>::empty());
                assert(text@.skip(n as int) =~= Seq::<char>::empty());
            }
        }
        let outcome = decode_line(line);
        proof {
            assert(lines.len() > 0);
            assert(lines_outcome(lines) == match line_outcome(lines[0]) {
                OutcomeView::Nothing => lines_outcome(lines.drop_first()),
                other => other,
            });
        }
        match outcome {
            Outcome::Nothing => {},
            _ => {
                return outcome;
            },
        }
        if end < n {
            start = end + 1;
        } else {
            start = n;
        }
    }
    proof {
        assert(text@.skip(n as int) =~= Seq::<char>::empty());
    }
    Outcome::Nothing
}

/// What a run of bytes amounts to: the outcome of the text they encode, with
/// a replacement character for each part that is no text.
pub fn decode_chunk(chunk: &[u8]) -> (outcome: Outcome)
    ensures
        outcome@ == chunk_outcome(chunk@),
{
    let text = decode_lossy(chunk);
    scan_text(text.as_str())
}

/// What reaches the decoder from upstream.
#[derive(Debug, Clone, PartialEq)]
pub enum StreamEvent {
    /// The next chunk of bytes.
    Chunk(Vec<u8>),
    /// The transport failed while fetching the next chunk.
    Failure(String),
    /// Upstream has no more chunks.
    End,
}

/// The decoder's state between chunks: whether the stream is over, and the
/// bytes behind the last line feed, which are the start of a line whose end has
/// not arrived yet.
#[derive(Debug)]
pub struct StreamDecoder {
    finished: bool,
    held: Vec<u8>,
}

/// The state of a decoder as a mathematical value.
pub struct DecoderView {
    pub finished: bool,
    pub held: Seq<u8>,
}

/// The length of the complete lines of a run of bytes: the position behind
/// its last line feed, or zero where it has none.
pub open spec fn complete_len(bytes: Seq<u8>) -> int
    decreases bytes.len(),
{
    if bytes.len() == 0 {
        0
    } else if bytes.last() == 10u8 {
        bytes.len() as int
    } else {
        complete_len(bytes.drop_last())
    }
}

/// The fragment of an outcome, if it is one.
pub open spec fn fragment_of(outcome: OutcomeView) -> Option<Seq<char>> {
    match outcome {
        OutcomeView::Fragment(text) => Some(text),
        _ => None,
    }
}

/// What the complete lines of a run of bytes amount to; nothing where no line
/// is complete.
pub open spec fn complete_outcome(bytes: Seq<u8>) -> OutcomeView {
    if complete_len(bytes) == 0 {
        OutcomeView::Nothing
    } else {
        chunk_outcome(bytes.take(complete_len(bytes)))
    }
}

/// What the held bytes amount to when the stream ends: they are its last
/// line; nothing where none are held.
pub open spec fn held_outcome(held: Seq<u8>) -> OutcomeView {
    if held.len() == 0 {
        OutcomeView::Nothing
    } else {
        chunk_outcome(held)
    }
}

impl DecoderView {
    /// What the decoder yields for a chunk.
    pub open spec fn chunk_item(self, chunk: Seq<u8>) -> Option<Seq<char>> {
        if self.finished {
            None
        } else {
            fragment_of(complete_outcome(self.held + chunk))
        }
    }

    /// The state after a chunk. A finished decoder stays as it is. Otherwise
    /// the bytes behind the last line feed are held, and the stream is over
    /// where the complete lines ended it.
    pub open spec fn after_chunk(self, chunk: Seq<u8>) -> DecoderView {
        if self.finished {
            self
        } else {
            let all = self.held + chunk;
            DecoderView {
                finished: complete_outcome(all) is Done,
                held: all.skip(complete_len(all)),
            }
        }
    }

    /// What the decoder yields when upstream ends.
    pub open spec fn end_item(self) -> Option<Seq<char>> {
        if self.finished {
            None
        } else {
            fragment_of(held_outcome(self.held))
        }
    }

    /// The state after upstream has ended: the stream is over and nothing is
    /// held.
    pub open spec fn after_end(self) -> DecoderView {
        DecoderView { finished: true, held: Seq::empty() }
    }
}

impl View for StreamDecoder {
    type V = DecoderView;

    closed spec fn view(&self) -> DecoderView {
        DecoderView { finished: self.finished, held: self.held@ }
    }
}

/// The position behind the last line feed never lies outside the bytes, and
/// what stands behind it holds no line feed.
pub proof fn lemma_complete_len(bytes: Seq<u8>)
    ensures
        0 <= complete_len(bytes) <= bytes.len(),
        complete_len(bytes) > 0 ==> bytes[complete_len(bytes) - 1] == 10u8,
        forall|j: int| complete_len(bytes) <= j < bytes.len() ==> bytes[j] != 10u8,
    decreases bytes.len(),
{
    if bytes.len() > 0 && bytes.last() != 10u8 {
        let shorter = bytes.drop_last();
        lemma_complete_len(shorter);
        assert forall|j: int| complete_len(bytes) <= j < bytes.len() implies bytes[j] != 10u8 by {
            if j < shorter.len() {
                assert(bytes[j] == shorter[j]);
            }
        }
        if complete_len(bytes) > 0 {
            assert(bytes[complete_len(bytes) - 1] == shorter[complete_len(shorter) - 1]);
        }
    }
}

fn complete_length(bytes: &Vec<u8>) -> (k: usize)
    ensures
        k == complete_len(bytes@),
{
    let mut k: usize = bytes.len();
    proof {
        assert(bytes@.take(k as int) =~= bytes@);
    }
    while k > 0
        invariant
            k <= bytes@.len(),
            complete_len(bytes@) == complete_len(bytes@.take(k as int)),
        decreases k,
    {
        proof {
            assert(bytes@.take(k as int).last() == bytes@[k - 1]);
            assert(bytes@.take(k as int).drop_last() =~= bytes@.take(k - 1));
        }
        if bytes[k - 1] == 10u8 {
            return k;
        }
        k = k - 1;
    }
    proof {
        assert(bytes@.take(0).len() == 0);
    }
    0
}

fn copy_range(bytes: &Vec<u8>, from: usize, to: usize) -> (part: Vec<u8>)
    requires
        from <= to <= bytes@.len(),
    ensures
        part@ == bytes@.subrange(from as int, to as int),
{
    let mut part: Vec<u8> = Vec::new();
    let mut i: usize = from;
    while i < to
        invariant
            from <= i <= to <= bytes@.len(),
            part@ == bytes@.subrange(from as int, i as int),
        decreases to - i,
    {
        part.push(bytes[i]);
        proof {
            assert(part@ =~= bytes@.subrange(from as int, i + 1));
        }
        i = i + 1;
    }
    part
}

fn joined(first: &Vec<u8>, second: &[u8]) -> (all: Vec<u8>)
    ensures
        all@ == first@ + second@,
{
    let mut all: Vec<u8> = copy_range(first, 0, first.len());
    proof {
        assert(all@ =~= first@);
    }
    let n: usize = second.len();
    let mut i: usize = 0;
    while i < n
        invariant
            n == second@.len(),
            i <= n,
            all@ == first@ + second@.take(i as int),
        decreases n - i,
    {
        all.push(second[i]);
        proof {
            assert(all@ =~= first@ + second@.take(i + 1));
        }
        i = i + 1;
    }
    proof {
        assert(second@.take(n as int) =~= second@);
    }
    all
}

impl StreamDecoder {
    /// A decoder at the start of a stream: not finished, nothing held.
    pub fn new() -> (decoder: Self)
        ensures
            decoder@ == (DecoderView { finished: false, held: Seq::empty() }),
    {
        StreamDecoder { finished: false, held: Vec::new() }
    }

    /// Whether the stream is over: the end marker has been seen, or upstream
    /// has ended.
    pub fn is_finished(&self) -> (finished: bool)
        ensures
            finished == self@.finished,
    {
        self.finished
    }

    /// Takes the next chunk and yields the fragment of its complete lines, if
    /// they have one. The bytes behind the last line feed are held for the next
    /// chunk. Once the stream is over, chunks are consumed and yield nothing.
    pub fn feed(&mut self, chunk: &[u8]) -> (fragment: Option<String>)
        ensures
            opt_text(fragment) == old(self)@.chunk_item(chunk@),
            final(self)@ == old(self)@.after_chunk(chunk@),
    {
        if self.finished {
            return None;
        }
        let all = joined(&self.held, chunk);
        let k = complete_length(&all);
        proof {
            lemma_complete_len(all@);
        }
        let complete = copy_range(&all, 0, k);
        let rest = copy_range(&all, k, all.len());
        proof {
            assert(complete@ =~= all@.take(k as int));
            assert(rest@ =~= all@.skip(k as int));
        }
        self.held = rest;
        if k == 0 {
            return None;
        }
        match decode_chunk(complete.as_slice()) {
            Outcome::Fragment(text) => Some(text),
            Outcome::Done => {
                self.finished = true;
                None
            },
            Outcome::Nothing => None,
        }
    }

    /// Ends the stream: what is still held is read as the last line and
    /// yields its fragment, if it has one.
    pub fn finish(&mut self) -> (fragment: Option<String>)
        ensures
            opt_text(fragment) == old(self)@.end_item(),
            final(self)@ == old(self)@.after_end(),
    {
        let was_finished = self.finished;
        let last = copy_range(&self.held, 0, self.held.len());
        proof {
            assert(last@ =~= self.held@);
        }
        self.finished = true;
        self.held = Vec::new();
        if was_finished || last.len() == 0 {
            return None;
        }
        match decode_chunk(last.as_slice()) {
            Outcome::Fragment(text) => Some(text),
            _ => None,
        }
    }

    /// Takes the next event from upstream and yields the item for the consumer:
    /// a fragment, a transport failure, or nothing. A failure is handed on
    /// whether or not the stream is over, and leaves the state as it was.
    pub fn step(&mut self, event: StreamEvent) -> (item: Option<Result<String, GatewayError>>)
        ensures
            match event {
                StreamEvent::Chunk(bytes) => {
                    &&& final(self)@ == old(self)@.after_chunk(bytes@)
                    &&& match old(self)@.chunk_item(bytes@) {
                        Some(text) => item matches Some(Ok(s)) && s@ == text,
                        None => item is None,
                    }
                },
                StreamEvent::Failure(message) => {
                    &&& final(self)@ == old(self)@
                    &&& item matches Some(Err(e))
                    &&& e@ == ErrorView::HttpError(message@)
                },
                StreamEvent::End => {
                    &&& final(self)@ == old(self)@.after_end()
                    &&& match old(self)@.end_item() {
                        Some(text) => item matches Some(Ok(s)) && s@ == text,
                        None => item is None,
                    }
                },
            },
    {
        match event {
            StreamEvent::Chunk(bytes) => {
                match self.feed(bytes.as_slice()) {
                    Some(text) => Some(Ok(text)),
                    None => None,
                }
            },
            StreamEvent::Failure(message) => Some(Err(GatewayError::HttpError(message))),
            StreamEvent::End => {
                match self.finish() {
                    Some(text) => Some(Ok(text)),
                    None => None,
                }
            },
        }
    }
}

/// A line that arrives in two chunks is read as if it had arrived in one: as
/// long as the first chunk holds no line feed, feeding the two chunks one
/// after the other yields what feeding them joined yields, and leaves the same
/// state.
pub proof fn lemma_split_line_is_joined(state: DecoderView, first: Seq<u8>, second: Seq<u8>)
    requires
        !state.finished,
        complete_len(state.held + first) == 0,
    ensures
        state.chunk_item(first) is None,
        state.after_chunk(first).chunk_item(second) == state.chunk_item(first + second),
        state.after_chunk(first).after_chunk(second) == state.after_chunk(first + second),
{
    let all = state.held + first;
    assert(all.skip(0) =~= all);
    assert(all + second =~= state.held + (first + second));
}

/// Once the stream is over, no chunk yields anything, and the state stays as
/// it is.
pub proof fn lemma_nothing_after_the_end(state: DecoderView, chunk: Seq<u8>)
    requires
        state.finished,
    ensures
        state.chunk_item(chunk) is None,
        state.end_item() is None,
        state.after_chunk(chunk) == state,
{
}

} // verus!
