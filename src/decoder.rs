//! The incremental decoder of a streamed reply.
//!
//! The reply arrives as a body cut into chunks at arbitrary places. Each
//! complete line of the body is one event: `data: <json>`, whose JSON may
//! carry a piece of the reply's text, or `data: [DONE]`, which ends it. The
//! decoder reassembles lines, strips the envelope, recognises the terminal
//! marker and accumulates the text, and it decides what each outcome of the
//! JSON reader means. Reading the JSON itself is left to the caller, which
//! hands each outcome back as a [`Parsed`] value.
use vstd::prelude::*;
use vstd::string::StringExecFns;

use crate::frame::{lines_from, rest_from, split_lines};

verus! {

/// What the JSON reader made of the text of one event.
#[derive(Debug, Clone)]
pub enum Parsed {
    /// A well-formed event that carries this piece of text.
    Content(String),
    /// A well-formed event that carries no text.
    NoContent,
    /// The text stops before the end of a JSON value.
    Truncated,
    /// The text is not a well-formed event, and more input would not make it one.
    Invalid,
}

/// What the JSON reader found in the text of one event.
#[derive(Debug, Clone)]
pub enum Reading {
    /// A well-formed event: the content of the delta of each of its
    /// choices, in order, where there is one.
    Event(Vec<Option<String>>),
    /// The text ends before a JSON value does.
    EndOfInput,
    /// The text is not a well-formed event for another reason.
    Failure,
}

impl Parsed {
    /// The outcome of an event from what the reader found in it: the content
    /// of the first choice; an event without choices is not well formed.
    pub fn from_reading(r: Reading) -> (p: Parsed)
        ensures
            match r {
                Reading::Event(choices) => if choices@.len() == 0 {
                    p@ == ParsedView::Invalid
                } else {
                    match choices@[0] {
                        Some(c) => p@ == ParsedView::Content(c@),
                        None => p@ == ParsedView::NoContent,
                    }
                },
                Reading::EndOfInput => p@ == ParsedView::Truncated,
                Reading::Failure => p@ == ParsedView::Invalid,
            },
    {
        match r {
            Reading::Event(choices) => {
                let mut choices = choices;
                if choices.len() == 0 {
                    Parsed::Invalid
                } else {
                    match choices.swap_remove(0) {
                        Some(c) => Parsed::Content(c),
                        None => Parsed::NoContent,
                    }
                }
            },
            Reading::EndOfInput => Parsed::Truncated,
            Reading::Failure => Parsed::Invalid,
        }
    }
}

/// Why a decode failed.
#[derive(Debug, Clone)]
pub enum DecodeError {
    /// The service refused the request, with this message.
    HttpFailure(String),
    /// An event that is not well formed: the text that was read.
    MalformedEvent(Vec<u8>),
    /// The body ended without the terminal marker.
    UnterminatedStream,
}

/// What the decoder reports of one line, or of a rejected response.
#[derive(Debug, Clone)]
pub enum ChatEvent {
    /// A piece of the reply's text.
    ContentDelta(String),
    /// The terminal marker.
    Done,
    /// The error message of a refused request.
    ErrorPayload(String),
    /// An event that is not well formed.
    Malformed(Vec<u8>),
}

/// Where a decode stands.
#[derive(Debug, Clone)]
pub enum Status {
    Streaming,
    Done,
    Failed(DecodeError),
}

/// The decoder of one streamed reply.
pub struct StreamDecoder {
    carry: Vec<u8>,
    fragment: Option<Vec<u8>>,
    reply: String,
    status: Status,
}

/// What the JSON reader made of an event's text, as plain values.
pub enum ParsedView {
    Content(Seq<char>),
    NoContent,
    Truncated,
    Invalid,
}

/// Why a decode failed, as plain values.
pub enum FailureView {
    Http(Seq<char>),
    Malformed(Seq<u8>),
    Unterminated,
}

/// What the decoder reports of a line, as plain values.
pub enum EventView {
    Delta(Seq<char>),
    Done,
    Error(Seq<char>),
    Malformed(Seq<u8>),
}

/// Where a decode stands, as plain values.
pub enum StatusView {
    Streaming,
    Done,
    Failed(FailureView),
}

/// The state of a decoder: the unterminated piece of the body read so far,
/// the truncated event text kept for the next line, the text accumulated,
/// and where the decode stands.
pub struct DecoderView {
    pub carry: Seq<u8>,
    pub fragment: Option<Seq<u8>>,
    pub reply: Seq<char>,
    pub status: StatusView,
}

impl View for Parsed {
    type V = ParsedView;

    open spec fn view(&self) -> ParsedView {
        match self {
            Parsed::Content(c) => ParsedView::Content(c@),
            Parsed::NoContent => ParsedView::NoContent,
            Parsed::Truncated => ParsedView::Truncated,
            Parsed::Invalid => ParsedView::Invalid,
        }
    }
}

impl View for DecodeError {
    type V = FailureView;

    open spec fn view(&self) -> FailureView {
        match self {
            DecodeError::HttpFailure(m) => FailureView::Http(m@),
            DecodeError::MalformedEvent(t) => FailureView::Malformed(t@),
            DecodeError::UnterminatedStream => FailureView::Unterminated,
        }
    }
}

impl View for ChatEvent {
    type V = EventView;

    open spec fn view(&self) -> EventView {
        match self {
            ChatEvent::ContentDelta(c) => EventView::Delta(c@),
            ChatEvent::Done => EventView::Done,
            ChatEvent::ErrorPayload(m) => EventView::Error(m@),
            ChatEvent::Malformed(t) => EventView::Malformed(t@),
        }
    }
}

impl View for Status {
    type V = StatusView;

    open spec fn view(&self) -> StatusView {
        match self {
            Status::Streaming => StatusView::Streaming,
            Status::Done => StatusView::Done,
            Status::Failed(e) => StatusView::Failed(e@),
        }
    }
}

impl View for StreamDecoder {
    type V = DecoderView;

    closed spec fn view(&self) -> DecoderView {
        DecoderView {
            carry: self.carry@,
            fragment: match self.fragment {
                Some(f) => Some(f@),
                None => None,
            },
            reply: self.reply@,
            status: self.status@,
        }
    }
}

/// The envelope before an event's JSON: `data: `.
pub open spec fn data_prefix() -> Seq<u8> {
    seq![100u8, 97u8, 116u8, 97u8, 58u8, 32u8]
}

/// The terminal marker: `[DONE]`.
pub open spec fn done_marker() -> Seq<u8> {
    seq![91u8, 68u8, 79u8, 78u8, 69u8, 93u8]
}

/// `s` begins with `p`.
pub open spec fn starts_with(s: Seq<u8>, p: Seq<u8>) -> bool {
    p.len() <= s.len() && s.subrange(0, p.len() as int) == p
}

/// The text of the event on `line`: the kept fragment, if any, followed by
/// the line, without the envelope where the two begin with it.
pub open spec fn event_text(fragment: Option<Seq<u8>>, line: Seq<u8>) -> Seq<u8> {
    let joined = match fragment {
        Some(f) => f + line,
        None => line,
    };
    if starts_with(joined, data_prefix()) {
        joined.subrange(data_prefix().len() as int, joined.len() as int)
    } else {
        joined
    }
}

/// A line whose text is read as JSON: one that is not blank and does not
/// begin with the terminal marker, while the decode goes on.
pub open spec fn reads_json(s: DecoderView, line: Seq<u8>) -> bool {
    &&& s.status is Streaming
    &&& line.len() > 0
    &&& !starts_with(event_text(s.fragment, line), done_marker())
}

/// The state after a fatal event: no fragment and no text are kept.
pub open spec fn failed(s: DecoderView, e: FailureView) -> DecoderView {
    DecoderView { fragment: None, reply: Seq::empty(), status: StatusView::Failed(e), ..s }
}

/// The state after one complete line, given what the JSON reader made of
/// the line's event text (consulted only where the line is read as JSON).
/// A truncated text is kept for the next line; one that is the very text
/// already kept makes no progress and is fatal.
pub open spec fn step(s: DecoderView, line: Seq<u8>, parsed: ParsedView) -> DecoderView {
    if !(s.status is Streaming) || line.len() == 0 {
        s
    } else {
        let t = event_text(s.fragment, line);
        if starts_with(t, done_marker()) {
            DecoderView { fragment: None, status: StatusView::Done, ..s }
        } else {
            match parsed {
                ParsedView::Content(c) => DecoderView { fragment: None, reply: s.reply + c, ..s },
                ParsedView::NoContent => DecoderView { fragment: None, ..s },
                ParsedView::Truncated => if s.fragment == Some(t) {
                    failed(s, FailureView::Malformed(t))
                } else {
                    DecoderView { fragment: Some(t), ..s }
                },
                ParsedView::Invalid => failed(s, FailureView::Malformed(t)),
            }
        }
    }
}

/// What the decoder reports of that line.
pub open spec fn emitted(s: DecoderView, line: Seq<u8>, parsed: ParsedView) -> Option<EventView> {
    if !(s.status is Streaming) || line.len() == 0 {
        None
    } else {
        let t = event_text(s.fragment, line);
        if starts_with(t, done_marker()) {
            Some(EventView::Done)
        } else {
            match parsed {
                ParsedView::Content(c) => Some(EventView::Delta(c)),
                ParsedView::NoContent => None,
                ParsedView::Truncated => if s.fragment == Some(t) {
                    Some(EventView::Malformed(t))
                } else {
                    None
                },
                ParsedView::Invalid => Some(EventView::Malformed(t)),
            }
        }
    }
}

/// What the decoder reports, as a view.
pub open spec fn event_view(r: Option<ChatEvent>) -> Option<EventView> {
    match r {
        Some(e) => Some(e@),
        None => None,
    }
}

/// The decode goes on.
pub open spec fn streaming(s: DecoderView) -> bool {
    s.status is Streaming
}

/// `s` with `carry` as its unterminated piece.
pub open spec fn with_carry(s: DecoderView, carry: Seq<u8>) -> DecoderView {
    DecoderView { carry, ..s }
}

/// The state of a new decoder.
pub open spec fn initial() -> DecoderView {
    DecoderView {
        carry: Seq::empty(),
        fragment: None,
        reply: Seq::empty(),
        status: StatusView::Streaming,
    }
}

/// The state after a refused response whose body gave this error message,
/// if the reader found one.
pub open spec fn rejected(s: DecoderView, body: Seq<u8>, message: Option<Seq<char>>) -> DecoderView {
    if !(s.status is Streaming) {
        s
    } else {
        match message {
            Some(m) => failed(s, FailureView::Http(m)),
            None => failed(s, FailureView::Malformed(body)),
        }
    }
}

/// What a finished decode gives: the text after the terminal marker, the
/// error otherwise.
pub open spec fn outcome(s: DecoderView) -> Result<Seq<char>, FailureView> {
    match s.status {
        StatusView::Done => Ok(s.reply),
        StatusView::Failed(e) => Err(e),
        StatusView::Streaming => Err(FailureView::Unterminated),
    }
}

/// Appends `src` to `dst`.
fn append_bytes(dst: &mut Vec<u8>, src: &[u8])
    ensures
        final(dst)@ == old(dst)@ + src@,
{
    let mut i: usize = 0;
    while i < src.len()
        invariant
            i <= src@.len(),
            dst@ == old(dst)@ + src@.subrange(0, i as int),
        decreases src@.len() - i,
    {
        dst.push(src[i]);
        i = i + 1;
        assert(dst@ =~= old(dst)@ + src@.subrange(0, i as int));
    }
    assert(src@.subrange(0, src@.len() as int) =~= src@);
}

/// A copy of `src`.
fn copy_bytes(src: &[u8]) -> (r: Vec<u8>)
    ensures
        r@ == src@,
{
    let mut r: Vec<u8> = Vec::new();
    append_bytes(&mut r, src);
    assert(r@ =~= src@);
    r
}

/// Whether `s` begins with `p`.
fn has_prefix(s: &[u8], p: &[u8]) -> (r: bool)
    ensures
        r == starts_with(s@, p@),
{
    if p.len() > s.len() {
        return false;
    }
    let mut i: usize = 0;
    while i < p.len()
        invariant
            p@.len() <= s@.len(),
            i <= p@.len(),
            s@.subrange(0, i as int) == p@.subrange(0, i as int),
        decreases p@.len() - i,
    {
        if s[i] != p[i] {
            assert(s@.subrange(0, p@.len() as int)[i as int] != p@[i as int]);
            return false;
        }
        i = i + 1;
        assert(s@.subrange(0, i as int) =~= p@.subrange(0, i as int));
    }
    assert(p@.subrange(0, p@.len() as int) =~= p@);
    true
}

/// Whether `a` and `b` hold the same bytes.
fn same_bytes(a: &[u8], b: &[u8]) -> (r: bool)
    ensures
        r == (a@ == b@),
{
    if a.len() != b.len() {
        return false;
    }
    let r = has_prefix(a, b);
    assert(a@.subrange(0, a@.len() as int) =~= a@);

    r
}

/// The bytes of the envelope.
fn data_prefix_bytes() -> (r: Vec<u8>)
    ensures
        r@ == data_prefix(),
{
    let mut r: Vec<u8> = Vec::new();
    r.push(100);
    r.push(97);
    r.push(116);
    r.push(97);
    r.push(58);
    r.push(32);
    assert(r@ =~= data_prefix());
    r
}

/// The bytes of the terminal marker.
fn done_marker_bytes() -> (r: Vec<u8>)
    ensures
        r@ == done_marker(),
{
    let mut r: Vec<u8> = Vec::new();
    r.push(91);
    r.push(68);
    r.push(79);
    r.push(78);
    r.push(69);
    r.push(93);
    assert(r@ =~= done_marker());
    r
}

impl StreamDecoder {
    /// A decoder that has read nothing yet.
    pub fn new() -> (d: StreamDecoder)
        ensures
            d@ == initial(),
    {
        StreamDecoder {
            carry: Vec::new(),
            fragment: None,
            reply: String::new(),
            status: Status::Streaming,
        }
    }

    /// Whether the decode goes on: neither the terminal marker nor a fatal
    /// event has been read.
    pub fn is_streaming(&self) -> (r: bool)
        ensures
            r == streaming(self@),
    {
        match self.status {
            Status::Streaming => true,
            _ => false,
        }
    }

    /// The event text of `line` under the kept fragment.
    fn text_of(&self, line: &[u8]) -> (r: Vec<u8>)
        ensures
            r@ == event_text(self@.fragment, line@),
    {
        let mut joined: Vec<u8> = Vec::new();
        match &self.fragment {
            Some(f) => append_bytes(&mut joined, f.as_slice()),
            None => {},
        }
        append_bytes(&mut joined, line);
        assert(joined@ =~= match self@.fragment {
            Some(f) => f + line@,
            None => line@,
        });
        let prefix = data_prefix_bytes();
        if has_prefix(joined.as_slice(), prefix.as_slice()) {
            let mut t: Vec<u8> = Vec::new();
            let mut i: usize = prefix.len();
            while i < joined.len()
                invariant
                    prefix@.len() <= i <= joined@.len(),
                    t@ == joined@.subrange(prefix@.len() as int, i as int),
                decreases joined@.len() - i,
            {
                t.push(joined[i]);
                i = i + 1;
                assert(t@ =~= joined@.subrange(prefix@.len() as int, i as int));
            }
            t
        } else {
            joined
        }
    }

    /// Takes the next chunk of the body and returns the lines that it
    /// completes, without their terminators, for [`StreamDecoder::apply`].
    /// Once the decode is over nothing more is read.
    pub fn feed(&mut self, chunk: &[u8]) -> (lines: Vec<Vec<u8>>)
        ensures
            streaming(old(self)@) ==> final(self)@ == with_carry(
                old(self)@,
                rest_from(old(self)@.carry, chunk@),
            ),
            streaming(old(self)@) ==> lines@.len() == lines_from(old(self)@.carry, chunk@).len(),
            streaming(old(self)@) ==> forall|i: int|
                0 <= i < lines@.len() ==> (#[trigger] lines@[i])@ == lines_from(
                    old(self)@.carry,
                    chunk@,
                )[i],
            !streaming(old(self)@) ==> final(self)@ == old(self)@ && lines@.len() == 0,
    {
        if !self.is_streaming() {
            return Vec::new();
        }
        split_lines(&mut self.carry, chunk)
    }

    /// Marks the end of the body: returns what is left after the last line
    /// terminator, as one last line if it is not empty.
    pub fn end_of_input(&mut self) -> (lines: Vec<Vec<u8>>)
        ensures
            streaming(old(self)@) ==> final(self)@ == with_carry(old(self)@, Seq::empty()),
            !streaming(old(self)@) ==> final(self)@ == old(self)@,
            streaming(old(self)@) && old(self)@.carry.len() > 0 ==> lines@.len() == 1
                && lines@[0]@ == old(self)@.carry,
            !(streaming(old(self)@) && old(self)@.carry.len() > 0) ==> lines@.len() == 0,
    {
        let mut lines: Vec<Vec<u8>> = Vec::new();
        if self.is_streaming() {
            let mut rest: Vec<u8> = Vec::new();
            core::mem::swap(&mut rest, &mut self.carry);
            if rest.len() > 0 {
                lines.push(rest);
            }
        }
        lines
    }

    /// The text of the event on `line`, which the caller hands to the JSON
    /// reader; none where the line is blank, holds the terminal marker, or
    /// comes after the end of the decode.
    pub fn event_text(&self, line: &[u8]) -> (r: Option<Vec<u8>>)
        ensures
            r is Some <==> reads_json(self@, line@),
            r is Some ==> r->0@ == event_text(self@.fragment, line@),
    {
        if !self.is_streaming() || line.len() == 0 {
            return None;
        }
        let t = self.text_of(line);
        let marker = done_marker_bytes();
        if has_prefix(t.as_slice(), marker.as_slice()) {
            None
        } else {
            Some(t)
        }
    }

    /// Takes one complete line, with what the JSON reader made of its event
    /// text, and returns what the line reports.
    pub fn apply(&mut self, line: &[u8], parsed: Parsed) -> (r: Option<ChatEvent>)
        ensures
            final(self)@ == step(old(self)@, line@, parsed@),
            event_view(r) == emitted(old(self)@, line@, parsed@),
    {
        if !self.is_streaming() || line.len() == 0 {
            return None;
        }
        let t = self.text_of(line);
        let marker = done_marker_bytes();
        if has_prefix(t.as_slice(), marker.as_slice()) {
            self.fragment = None;
            self.status = Status::Done;
            return Some(ChatEvent::Done);
        }
        match parsed {
            Parsed::Content(c) => {
                self.fragment = None;
                self.reply.append(c.as_str());
                Some(ChatEvent::ContentDelta(c))
            },
            Parsed::NoContent => {
                self.fragment = None;
                None
            },
            Parsed::Truncated => {
                let repeated = match &self.fragment {
                    Some(f) => same_bytes(f.as_slice(), t.as_slice()),
                    None => false,
                };
                if repeated {
                    self.fail(DecodeError::MalformedEvent(copy_bytes(t.as_slice())));
                    Some(ChatEvent::Malformed(t))
                } else {
                    self.fragment = Some(t);
                    None
                }
            },
            Parsed::Invalid => {
                self.fail(DecodeError::MalformedEvent(copy_bytes(t.as_slice())));
                Some(ChatEvent::Malformed(t))
            },
        }
    }

    /// Ends the decode with `e`, keeping neither fragment nor text.
    fn fail(&mut self, e: DecodeError)
        ensures
            final(self)@ == failed(old(self)@, e@),
    {
        self.fragment = None;
        self.reply = String::new();
        self.status = Status::Failed(e);
    }

    /// Takes the whole body of a response that the service refused, with
    /// the error message that the JSON reader found in it, if any.
    pub fn reject(&mut self, body: &[u8], message: Option<String>) -> (r: Option<ChatEvent>)
        ensures
            final(self)@ == rejected(
                old(self)@,
                body@,
                match message {
                    Some(m) => Some(m@),
                    None => None,
                },
            ),
            !streaming(old(self)@) ==> r is None,
            streaming(old(self)@) ==> match message {
                Some(m) => event_view(r) == Some(EventView::Error(m@)),
                None => event_view(r) == Some(EventView::Malformed(body@)),
            },
    {
        if !self.is_streaming() {
            return None;
        }
        match message {
            Some(m) => {
                self.fail(DecodeError::HttpFailure(String::from_str(m.as_str())));
                Some(ChatEvent::ErrorPayload(m))
            },
            None => {
                self.fail(DecodeError::MalformedEvent(copy_bytes(body)));
                Some(ChatEvent::Malformed(copy_bytes(body)))
            },
        }
    }

    /// Ends the decode: the accumulated text if the terminal marker was
    /// read, the error otherwise.
    pub fn into_result(self) -> (r: Result<String, DecodeError>)
        ensures
            match r {
                Ok(t) => outcome(self@) == Ok::<Seq<char>, FailureView>(t@),
                Err(e) => outcome(self@) == Err::<Seq<char>, FailureView>(e@),
            },
    {
        match self.status {
            Status::Done => Ok(self.reply),
            Status::Failed(e) => Err(e),
            Status::Streaming => Err(DecodeError::UnterminatedStream),
        }
    }
}

/// The state after the complete lines `lines`, the event text of each read
/// by `p`.
pub open spec fn run_lines(
    s: DecoderView,
    lines: Seq<Seq<u8>>,
    p: spec_fn(Seq<u8>) -> ParsedView,
) -> DecoderView
    decreases lines.len(),
{
    if lines.len() == 0 {
        s
    } else {
        let prev = run_lines(s, lines.drop_last(), p);
        step(prev, lines.last(), p(event_text(prev.fragment, lines.last())))
    }
}

/// The pieces of text reported while reading `lines`, joined in order.
pub open spec fn deltas(
    s: DecoderView,
    lines: Seq<Seq<u8>>,
    p: spec_fn(Seq<u8>) -> ParsedView,
) -> Seq<char>
    decreases lines.len(),
{
    if lines.len() == 0 {
        Seq::empty()
    } else {
        let prev = run_lines(s, lines.drop_last(), p);
        let e = emitted(prev, lines.last(), p(event_text(prev.fragment, lines.last())));
        deltas(s, lines.drop_last(), p) + match e {
            Some(EventView::Delta(c)) => c,
            _ => Seq::empty(),
        }
    }
}

/// The state after one chunk of the body: [`StreamDecoder::feed`], then
/// [`StreamDecoder::apply`] on each line that it returns.
pub open spec fn absorb(s: DecoderView, chunk: Seq<u8>, p: spec_fn(Seq<u8>) -> ParsedView) -> DecoderView {
    if streaming(s) {
        run_lines(with_carry(s, rest_from(s.carry, chunk)), lines_from(s.carry, chunk), p)
    } else {
        s
    }
}

/// The state after the end of the body: [`StreamDecoder::end_of_input`],
/// then [`StreamDecoder::apply`] on the line that it returns, if any.
pub open spec fn finish(s: DecoderView, p: spec_fn(Seq<u8>) -> ParsedView) -> DecoderView {
    if streaming(s) {
        let t = with_carry(s, Seq::empty());
        if s.carry.len() > 0 {
            step(t, s.carry, p(event_text(t.fragment, s.carry)))
        } else {
            t
        }
    } else {
        s
    }
}

} // verus!
