//! Incremental decoding of a server-sent-event completion stream.
//!
//! The body arrives in byte chunks of arbitrary size. Complete lines are taken
//! from a buffer; an `event: <name>` line names the events that follow and a
//! `data: <json>` line is one event. Answer events feed two accumulators whose
//! concatenation is the final answer.
use vstd::prelude::*;
use vstd::string::*;
use vstd::utf8::*;
use crate::error::ChatError;
use crate::models::{ChatCompletionResponse, ChatResponse};
use crate::text::{has_prefix, text_eq, text_starts_with, trim_text, trimmed};

verus! {

/// What `String::from_utf8_lossy` makes of a byte sequence.
pub uninterp spec fn lossy_text_of(bytes: Seq<u8>) -> Seq<char>;

/// Relies on `String::from_utf8_lossy`: the text of `bytes`, with each invalid
/// sequence replaced; valid UTF-8 comes back unchanged.
#[verifier::external_body]
fn lossy_text(bytes: &[u8]) -> (r: String)
    ensures
        r@ == lossy_text_of(bytes@),
        valid_utf8(bytes@) ==> r@ == decode_utf8(bytes@),
{
    String::from_utf8_lossy(bytes).into_owned()
}

/// A text made of white space only (or of nothing).
pub open spec fn is_blank(s: Seq<char>) -> bool {
    trimmed(s).len() == 0
}

/// Three string fields of the first choice of a completion chunk, as read
/// from its JSON text: `choices[0].delta.content`, `choices[0].message.content`
/// and `choices[0].finish_reason`. A field that is missing or not a string is
/// `None`; the whole is `None` when the text is not JSON.
pub uninterp spec fn first_choice_of(data: Seq<char>) -> Option<
    (Option<Seq<char>>, Option<Seq<char>>, Option<Seq<char>>),
>;

/// The string fields of a completion chunk that decoding looks at.
pub struct ChoiceFields {
    pub delta: Option<String>,
    pub message: Option<String>,
    pub finish_reason: Option<String>,
}

impl ChoiceFields {
    pub open spec fn view(&self) -> (Option<Seq<char>>, Option<Seq<char>>, Option<Seq<char>>) {
        (self.delta.deep_view(), self.message.deep_view(), self.finish_reason.deep_view())
    }
}

/// Relies on `serde_json::from_str` to parse `data` as a JSON value, and on the
/// indexing of `serde_json::Value` (missing keys and indices give `Null`) with
/// `Value::as_str` to read three fields of its first choice.
#[verifier::external_body]
fn read_first_choice(data: &str) -> (r: Option<ChoiceFields>)
    ensures
        match r {
            Some(c) => first_choice_of(data@) == Some(c.view()),
            None => first_choice_of(data@) is None,
        },
{
    let value: serde_json::Value = serde_json::from_str(data).ok()?;
    let choice = &value["choices"][0];
    Some(ChoiceFields {
        delta: choice["delta"]["content"].as_str().map(String::from),
        message: choice["message"]["content"].as_str().map(String::from),
        finish_reason: choice["finish_reason"].as_str().map(String::from),
    })
}

/// One `data:` line of the stream, with the event name in force when it came.
#[derive(Debug, Clone)]
pub struct SseEvent {
    pub name: String,
    pub data: String,
}

/// The byte that ends a line.
pub open spec fn newline() -> u8 {
    10u8
}

/// Index of the first line feed in `s`, if any.
pub open spec fn first_newline(s: Seq<u8>) -> Option<int> {
    if exists|i: int| 0 <= i < s.len() && s[i] == newline() && no_newline_before(s, i) {
        Some(choose|i: int| 0 <= i < s.len() && s[i] == newline() && no_newline_before(s, i))
    } else {
        None
    }
}

pub open spec fn no_newline_before(s: Seq<u8>, i: int) -> bool {
    forall|j: int| 0 <= j < i ==> s[j] != newline()
}

/// A line without its terminating carriage return, as `str::lines` gives it.
pub open spec fn strip_cr(line: Seq<u8>) -> Seq<u8> {
    if line.len() > 0 && line.last() == 13u8 {
        line.drop_last()
    } else {
        line
    }
}

/// The text of the first complete line of `s`, when `s` holds one ending at `i`.
pub open spec fn line_text(s: Seq<u8>, i: int) -> Seq<char> {
    lossy_text_of(strip_cr(s.subrange(0, i)))
}

pub open spec fn event_field() -> Seq<char> {
    "event: "@
}

pub open spec fn data_field() -> Seq<char> {
    "data: "@
}

/// Result of scanning buffered bytes for the next data line: the event name
/// in force afterwards, the bytes left over, and the event found, if any.
pub struct Scan {
    pub current_event: Seq<char>,
    pub pending: Seq<u8>,
    pub event: Option<(Seq<char>, Seq<char>)>,
}

/// Consumes complete lines of `pending` until one is a data line or none is
/// complete. An `event:` line changes the current name; other lines are skipped.
pub open spec fn scan(current_event: Seq<char>, pending: Seq<u8>) -> Scan
    decreases pending.len(),
{
    match first_newline(pending) {
        None => Scan { current_event, pending, event: None },
        Some(i) => {
            let text = line_text(pending, i);
            let rest = pending.subrange(i + 1, pending.len() as int);
            if has_prefix(text, event_field()) {
                scan(text.subrange(7, text.len() as int), rest)
            } else if has_prefix(text, data_field()) {
                Scan {
                    current_event,
                    pending: rest,
                    event: Some((current_event, text.subrange(6, text.len() as int))),
                }
            } else {
                scan(current_event, rest)
            }
        },
    }
}

/// An accumulator after one answer chunk: a non-blank delta is appended; if the
/// accumulator is still empty, a non-blank full message takes its place.
pub open spec fn fold_choice(
    buffer: Seq<char>,
    delta: Option<Seq<char>>,
    message: Option<Seq<char>>,
) -> Seq<char> {
    let with_delta = match delta {
        Some(d) => if is_blank(d) {
            buffer
        } else {
            buffer + d
        },
        None => buffer,
    };
    if with_delta.len() == 0 {
        match message {
            Some(m) => if is_blank(m) {
                with_delta
            } else {
                m
            },
            None => with_delta,
        }
    } else {
        with_delta
    }
}

pub open spec fn fast_answer_name() -> Seq<char> {
    "fastAnswer"@
}

pub open spec fn answer_name() -> Seq<char> {
    "answer"@
}

pub open spec fn stop_reason() -> Seq<char> {
    "stop"@
}

/// Whether an event of this name carries answer text.
pub open spec fn is_answer_event(name: Seq<char>) -> bool {
    name == fast_answer_name() || name == answer_name()
}

/// The decoder as a mathematical value.
pub struct DecoderView {
    pub pending: Seq<u8>,
    pub current_event: Seq<char>,
    pub fast_answer: Seq<char>,
    pub answer_delta: Seq<char>,
    pub events: Seq<(Seq<char>, Seq<char>)>,
    pub done: bool,
}

/// The answer so far: the fast answer followed by the detailed one.
pub open spec fn content_of(v: DecoderView) -> Seq<char> {
    v.fast_answer + v.answer_delta
}

/// State of the decoding of one response body.
pub struct StreamDecoder {
    pending: Vec<u8>,
    current_event: String,
    fast_answer: String,
    answer_delta: String,
    events: Vec<(String, String)>,
    done: bool,
}

pub open spec fn events_view(events: Seq<(String, String)>) -> Seq<(Seq<char>, Seq<char>)> {
    Seq::new(events.len(), |i: int| (events[i].0@, events[i].1@))
}

impl View for StreamDecoder {
    type V = DecoderView;

    closed spec fn view(&self) -> DecoderView {
        DecoderView {
            pending: self.pending@,
            current_event: self.current_event@,
            fast_answer: self.fast_answer@,
            answer_delta: self.answer_delta@,
            events: events_view(self.events@),
            done: self.done,
        }
    }
}

/// The decoder after an answer event of the given name whose first choice
/// reads `c`: the matching accumulator is folded, and a `stop` finish reason
/// marks the answer complete.
pub open spec fn after_choice(
    v: DecoderView,
    name: Seq<char>,
    c: (Option<Seq<char>>, Option<Seq<char>>, Option<Seq<char>>),
) -> DecoderView {
    DecoderView {
        fast_answer: if name == fast_answer_name() {
            fold_choice(v.fast_answer, c.0, c.1)
        } else {
            v.fast_answer
        },
        answer_delta: if name == fast_answer_name() {
            v.answer_delta
        } else {
            fold_choice(v.answer_delta, c.0, c.1)
        },
        done: v.done || c.2 == Some(stop_reason()),
        ..v
    }
}

/// Whether an answer is white space only, and so no answer at all: nothing
/// is saved or rendered for it.
pub fn is_blank_answer(content: &str) -> (r: bool)
    ensures
        r == is_blank(content@),
{
    is_blank_text(content)
}

/// Whether `s` is white space only.
fn is_blank_text(s: &str) -> (r: bool)
    ensures
        r == is_blank(s@),
{
    trim_text(s).is_empty()
}

/// Folds the delta and message of one chunk into an accumulator.
fn fold_into(buffer: &mut String, fields: &ChoiceFields)
    ensures
        final(buffer)@ == fold_choice(old(buffer)@, fields.view().0, fields.view().1),
{
    if let Some(d) = &fields.delta {
        if !is_blank_text(d.as_str()) {
            buffer.append(d.as_str());
        }
    }
    if buffer.as_str().is_empty() {
        if let Some(m) = &fields.message {
            if !is_blank_text(m.as_str()) {
                buffer.append(m.as_str());
            }
        }
    }
}

/// Once an answer event reports a `stop` finish reason the answer is
/// complete: whatever is still buffered stays unread, since the decoder hands
/// out no further event.
pub proof fn lemma_stop_ends_decoding(
    v: DecoderView,
    name: Seq<char>,
    c: (Option<Seq<char>>, Option<Seq<char>>, Option<Seq<char>>),
)
    requires
        is_answer_event(name),
        c.2 == Some(stop_reason()),
    ensures
        after_choice(v, name, c).done,
        after_choice(v, name, c).pending == v.pending,
        after_choice(v, name, c).events == v.events,
{
}

/// Finds the first line feed of `s`.
fn find_newline(s: &Vec<u8>) -> (r: Option<usize>)
    ensures
        r == match first_newline(s@) {
            Some(i) => Some(i as usize),
            None => None::<usize>,
        },
        r is Some ==> r->0 < s@.len(),
{
    let mut i: usize = 0;
    while i < s.len()
        invariant
            i <= s@.len(),
            no_newline_before(s@, i as int),
        decreases s@.len() - i,
    {
        if s[i] == 10u8 {
            assert(first_newline(s@) == Some(i as int)) by {
                let w = choose|k: int|
                    0 <= k < s@.len() && s@[k] == newline() && no_newline_before(s@, k);
                assert(0 <= w < s@.len() && s@[w] == newline() && no_newline_before(s@, w));
                if w < i {
                    assert(s@[w] != newline());
                } else if w > i {
                    assert(s@[i as int] != newline());
                }
            }
            return Some(i);
        }
        i = i + 1;
    }
    None
}

/// The characters of `text` from position `start` on.
fn text_after(text: &str, start: usize) -> (r: String)
    requires
        start <= text@.len(),
    ensures
        r@ == text@.subrange(start as int, text@.len() as int),
{
    let n = text.unicode_len();
    text.substring_char(start, n).to_owned()
}

impl StreamDecoder {
    /// A decoder that has seen nothing.
    pub fn new() -> (r: StreamDecoder)
        ensures
            r@.pending.len() == 0,
            r@.current_event.len() == 0,
            r@.fast_answer.len() == 0,
            r@.answer_delta.len() == 0,
            r@.events.len() == 0,
            !r@.done,
    {
        let r = StreamDecoder {
            pending: Vec::new(),
            current_event: String::new(),
            fast_answer: String::new(),
            answer_delta: String::new(),
            events: Vec::new(),
            done: false,
        };
        assert(events_view(r.events@) =~= Seq::empty());
        r
    }

    /// Whether the answer has been marked complete.
    pub fn is_done(&self) -> (r: bool)
        ensures
            r == self@.done,
    {
        self.done
    }

    /// The answer so far: the fast answer followed by the detailed one.
    pub fn content(&self) -> (r: String)
        ensures
            r@ == content_of(self@),
    {
        let mut r = self.fast_answer.clone();
        r.append(self.answer_delta.as_str());
        r
    }

    /// Buffers one chunk of the response body.
    pub fn push_chunk(&mut self, chunk: &[u8])
        ensures
            final(self)@ == (DecoderView { pending: old(self)@.pending + chunk@, ..old(self)@ }),
    {
        let ghost before = self@;
        let mut i: usize = 0;
        while i < chunk.len()
            invariant
                i <= chunk@.len(),
                self@ == (DecoderView {
                    pending: before.pending + chunk@.subrange(0, i as int),
                    ..before
                }),
            decreases chunk@.len() - i,
        {
            self.pending.push(chunk[i]);
            assert(self.pending@ =~= before.pending + chunk@.subrange(0, i + 1));
            i = i + 1;
        }
        assert(chunk@.subrange(0, chunk@.len() as int) =~= chunk@);
    }

    /// Takes complete lines from the buffer until a `data:` line, which is
    /// logged and returned with the event name in force. An `event:` line sets
    /// that name; other lines are skipped. Returns `None` once the answer is
    /// complete, or when no complete line is left.
    pub fn next_event(&mut self) -> (r: Option<SseEvent>)
        ensures
            old(self)@.done ==> r is None && final(self)@ == old(self)@,
            !old(self)@.done ==> ({
                let sc = scan(old(self)@.current_event, old(self)@.pending);
                &&& final(self)@ == (DecoderView {
                    pending: sc.pending,
                    current_event: sc.current_event,
                    events: match sc.event {
                        Some(e) => old(self)@.events.push(e),
                        None => old(self)@.events,
                    },
                    ..old(self)@
                })
                &&& match sc.event {
                    Some(e) => r matches Some(ev) && ev.name@ == e.0 && ev.data@ == e.1,
                    None => r is None,
                }
            }),
    {
        if self.done {
            return None;
        }
        let ghost before = self@;
        let ghost goal = scan(self.current_event@, self.pending@);
        proof {
            reveal_strlit("event: ");
            reveal_strlit("data: ");
        }
        loop
            invariant
                scan(self.current_event@, self.pending@) == goal,
                goal == scan(before.current_event, before.pending),
                before == old(self)@,
                self.fast_answer@ == before.fast_answer,
                self.answer_delta@ == before.answer_delta,
                events_view(self.events@) == before.events,
                self.done == before.done,
                !self.done,
                event_field().len() == 7,
                data_field().len() == 6,
            decreases self.pending@.len(),
        {
            let found = find_newline(&self.pending);
            match found {
                None => {
                    assert(self@ == (DecoderView {
                        pending: goal.pending,
                        current_event: goal.current_event,
                        events: before.events,
                        ..before
                    }));
                    return None;
                },
                Some(i) => {
                    let ghost pend = self.pending@;
                    let n = self.pending.len();
                    assert(i < n);
                    let mut line = self.pending.split_off(i + 1);
                    core::mem::swap(&mut line, &mut self.pending);
                    line.pop();
                    assert(line@ =~= pend.subrange(0, i as int));
                    if line.len() > 0 && line[line.len() - 1] == 13u8 {
                        line.pop();
                    }
                    assert(line@ =~= strip_cr(pend.subrange(0, i as int)));
                    let text = lossy_text(line.as_slice());
                    assert(text@ == line_text(pend, i as int));
                    if text_starts_with(text.as_str(), "event: ") {
                        self.current_event = text_after(text.as_str(), 7);
                    } else if text_starts_with(text.as_str(), "data: ") {
                        let data = text_after(text.as_str(), 6);
                        let name = self.current_event.clone();
                        let ghost old_events = self.events@;
                        self.events.push((name.clone(), data.clone()));
                        assert(events_view(self.events@) =~= events_view(old_events).push(
                            (name@, data@),
                        ));
                        return Some(SseEvent { name, data });
                    }
                },
            }
        }
    }

    /// Folds one event into the answer. Events other than `fastAnswer` and
    /// `answer` leave the state unchanged; the data of an answer event must be
    /// JSON, else decoding fails.
    pub fn apply_event(&mut self, ev: &SseEvent) -> (r: Result<(), ChatError>)
        ensures
            !is_answer_event(ev.name@) ==> r is Ok && final(self)@ == old(self)@,
            is_answer_event(ev.name@) ==> match first_choice_of(ev.data@) {
                None => final(self)@ == old(self)@ && match r {
                    Err(ChatError::Decode { data }) => data@ == ev.data@,
                    _ => false,
                },
                Some(c) => r is Ok && final(self)@ == after_choice(old(self)@, ev.name@, c),
            },
    {
        proof {
            reveal_strlit("fastAnswer");
            reveal_strlit("answer");
        }
        let fast = text_eq(ev.name.as_str(), "fastAnswer");
        let detailed = text_eq(ev.name.as_str(), "answer");
        if !fast && !detailed {
            return Ok(());
        }
        let fields = match read_first_choice(ev.data.as_str()) {
            Some(f) => f,
            None => {
                return Err(ChatError::Decode { data: ev.data.clone() });
            },
        };
        if fast {
            fold_into(&mut self.fast_answer, &fields);
        } else {
            fold_into(&mut self.answer_delta, &fields);
        }
        if let Some(reason) = &fields.finish_reason {
            if text_eq(reason.as_str(), "stop") {
                self.done = true;
            }
        }
        Ok(())
    }

    /// Ends decoding and hands out the merged answer with the event log.
    pub fn into_response(self) -> (r: ChatResponse)
        ensures
            r.content@ == content_of(self@),
            events_view(r.events@) == self@.events,
            r.raw_response.choices@.len() == 0,
            r.raw_response.created == 0,
    {
        let content = self.content();
        ChatResponse { content, raw_response: ChatCompletionResponse::empty(), events: self.events }
    }

    /// Marks the end of the body: a last line without a line feed still counts.
    pub fn finish_input(&mut self)
        ensures
            final(self)@ == (DecoderView {
                pending: if old(self)@.pending.len() == 0 {
                    old(self)@.pending
                } else {
                    old(self)@.pending.push(newline())
                },
                ..old(self)@
            }),
    {
        if self.pending.len() > 0 {
            self.pending.push(10u8);
        }
    }
}

} // verus!
