//! Incremental parser for a chunked top-level JSON array.
//!
//! A [`RouteStream`] owns the bytes that have arrived and not yet been
//! digested, a cursor into them and a small state machine. Its contracts are
//! stated over [`StreamView`]: the state together with the bytes from the
//! cursor on. Neither the digested prefix still held in memory nor the
//! compaction threshold is part of that view, so neither can influence what
//! the parser reports.

use vstd::prelude::*;
use vstd::slice::slice_subrange;
use vstd::slice::slice_to_vec;
use vstd::string::StringExecFns;
use crate::decimal::decimal;
use crate::decimal::push_decimal;
use crate::decode::Decoded;
use crate::decode::Scan;
use crate::decode::decode_prefix;
use crate::decode::json_scan;

verus! {

/// `[`, which opens the array.
pub const OPEN_BRACKET: u8 = 0x5B;

/// `,`, which separates two elements.
pub const COMMA: u8 = 0x2C;

/// `]`, which closes the array.
pub const CLOSE_BRACKET: u8 = 0x5D;

/// Number of digested bytes that may stay in memory before they are dropped.
pub const COMPACTION_THRESHOLD: usize = 2048;

/// Where the parser stands in the array.
#[derive(Debug, Clone, Copy, PartialEq, Eq, Structural)]
pub enum ParseState {
    /// No byte has arrived yet.
    CannotAdvance,
    /// A `[`, a `,` or the closing `]` is expected next.
    ReadingChars,
    /// An element is expected next.
    ReadingValue,
    /// The array was closed or the stream failed.
    Finished,
}

/// ASCII whitespace as `u8::is_ascii_whitespace` defines it: space, tab,
/// line feed, form feed and carriage return.
pub open spec fn is_whitespace(b: u8) -> bool {
    b == 0x20 || b == 0x09 || b == 0x0A || b == 0x0C || b == 0x0D
}

/// Executable test for [`is_whitespace`].
pub fn is_ascii_whitespace(b: u8) -> (r: bool)
    ensures
        r == is_whitespace(b),
{
    b == 0x20 || b == 0x09 || b == 0x0A || b == 0x0C || b == 0x0D
}

/// Length of the longest prefix of `s` that is whitespace throughout.
pub open spec fn leading_whitespace(s: Seq<u8>) -> nat
    decreases s.len(),
{
    if s.len() > 0 && is_whitespace(s[0]) {
        1 + leading_whitespace(s.skip(1))
    } else {
        0
    }
}

/// `s` without its leading whitespace.
pub open spec fn trim_start(s: Seq<u8>) -> Seq<u8> {
    s.skip(leading_whitespace(s) as int)
}

/// The whitespace prefix ends inside `s` or at its end, holds whitespace
/// only, and is followed by a byte that is none.
pub proof fn lemma_leading_whitespace(s: Seq<u8>)
    ensures
        leading_whitespace(s) <= s.len(),
        forall|i: int| 0 <= i < leading_whitespace(s) ==> is_whitespace(#[trigger] s[i]),
        leading_whitespace(s) < s.len() ==> !is_whitespace(s[leading_whitespace(s) as int]),
    decreases s.len(),
{
    if s.len() > 0 && is_whitespace(s[0]) {
        let t = s.skip(1);
        lemma_leading_whitespace(t);
        assert forall|i: int| 0 <= i < leading_whitespace(s) implies is_whitespace(
            #[trigger] s[i],
        ) by {
            if i > 0 {
                assert(s[i] == t[i - 1]);
            }
        }
        if leading_whitespace(s) < s.len() {
            assert(s[leading_whitespace(s) as int] == t[leading_whitespace(t) as int]);
        }
    }
}

/// A position that ends a run of whitespace from the start of `s` is the
/// length of the whitespace prefix.
pub proof fn lemma_leading_whitespace_is(s: Seq<u8>, k: int)
    requires
        0 <= k <= s.len(),
        forall|i: int| 0 <= i < k ==> is_whitespace(#[trigger] s[i]),
        k < s.len() ==> !is_whitespace(s[k]),
    ensures
        leading_whitespace(s) == k,
    decreases s.len(),
{
    if s.len() > 0 && is_whitespace(s[0]) {
        let t = s.skip(1);
        assert(k > 0);
        assert forall|i: int| 0 <= i < k - 1 implies is_whitespace(#[trigger] t[i]) by {
            assert(t[i] == s[i + 1]);
        }
        lemma_leading_whitespace_is(t, k - 1);
    } else if s.len() > 0 {
        if k > 0 {
            assert(is_whitespace(s[0]));
        }
    }
}

/// What the parser reports and acts on: its state and the bytes from the
/// cursor on.
pub ghost struct StreamView {
    pub state: ParseState,
    pub pending: Seq<u8>,
}

/// What one move of the state machine yields.
pub ghost enum Step {
    /// A `[` or `,` was consumed; the next move can follow at once.
    Continue,
    /// Nothing can be decided before more bytes arrive.
    NeedMore,
    /// One element, given by its bytes.
    Item(Seq<u8>),
    /// The array is closed.
    End,
    /// The bytes at the cursor cannot start an element.
    Error(Seq<char>),
}

/// What the parser makes of the decoder's verdict `scan` on `rest`: the
/// bytes that remain afterwards, and what the attempt yields.
///
/// A value is cut off the front with exactly the bytes the decoder consumed,
/// so that whatever follows it is kept for the next move; a premature end,
/// or no value at all, asks for more bytes; anything else is an error. A
/// count of consumed bytes beyond the end of `rest`, which the decoder never
/// gives, counts as all of `rest`.
pub open spec fn settle(rest: Seq<u8>, scan: Scan) -> (Seq<u8>, Step) {
    match scan {
        Scan::Value { consumed } => {
            let n = if consumed <= rest.len() {
                consumed as int
            } else {
                rest.len() as int
            };
            (rest.skip(n), Step::Item(rest.take(n)))
        },
        Scan::Invalid { detail } => (rest, Step::Error(detail)),
        Scan::Eof | Scan::Empty => (rest, Step::NeedMore),
    }
}

/// One decode attempt on `rest`: the bytes that remain afterwards, and what
/// the attempt yields. With no byte to look at, more are needed. Otherwise
/// the decoder is asked, and its verdict settled by [`settle`].
pub open spec fn attempt(rest: Seq<u8>) -> (Seq<u8>, Step) {
    if rest.len() == 0 {
        (rest, Step::NeedMore)
    } else {
        settle(rest, json_scan(rest))
    }
}

/// The state that follows a decode attempt: an element leads to the next
/// structural character, an error ends the stream, and a wait changes
/// nothing.
pub open spec fn state_after_attempt(yielded: Step) -> ParseState {
    match yielded {
        Step::Item(_) => ParseState::ReadingChars,
        Step::Error(_) => ParseState::Finished,
        _ => ParseState::ReadingValue,
    }
}

/// The state machine's move from `v`, and what it yields.
///
/// While a structural character is awaited, whitespace is passed over;
/// a `[` or `,` is consumed and an element awaited next; a `]` closes the
/// array and stays where it is; any other byte, or none, leaves the parser
/// waiting. While an element is awaited, whitespace is passed over and the
/// decoder is asked about the bytes that follow, unless there are none.
pub open spec fn step(v: StreamView) -> (StreamView, Step) {
    let rest = trim_start(v.pending);
    match v.state {
        ParseState::CannotAdvance => (v, Step::NeedMore),
        ParseState::Finished => (v, Step::End),
        ParseState::ReadingChars => {
            if rest.len() > 0 && (rest[0] == OPEN_BRACKET || rest[0] == COMMA) {
                (StreamView { state: ParseState::ReadingValue, pending: rest.skip(1) }, Step::Continue)
            } else if rest.len() > 0 && rest[0] == CLOSE_BRACKET {
                (StreamView { state: ParseState::Finished, pending: rest }, Step::End)
            } else {
                (StreamView { state: ParseState::ReadingChars, pending: rest }, Step::NeedMore)
            }
        },
        ParseState::ReadingValue => {
            let (pending, yielded) = attempt(rest);
            (StreamView { state: state_after_attempt(yielded), pending }, yielded)
        },
    }
}

/// The first byte of `s`, if it has one.
pub open spec fn first_byte(s: Seq<u8>) -> Option<u8> {
    if s.len() > 0 {
        Some(s[0])
    } else {
        None
    }
}

/// The view after `chunk` has arrived. The first non-empty chunk ever
/// received starts the parser; every chunk is put behind the pending bytes.
pub open spec fn feed(v: StreamView, chunk: Seq<u8>) -> StreamView {
    StreamView {
        state: if v.state == ParseState::CannotAdvance && chunk.len() > 0 {
            ParseState::ReadingChars
        } else {
            v.state
        },
        pending: v.pending + chunk,
    }
}

/// Result of one decode attempt or one structural move.
#[derive(Debug)]
pub enum ParseOutcome {
    /// One element was decoded; these are its bytes.
    Value(Vec<u8>),
    /// The array is closed: there is no further element.
    End,
    /// The bytes at the cursor cannot start an element.
    Invalid(String),
    /// The buffered bytes end before a decision can be made.
    Eof,
}

/// The [`Step`] that a result of [`RouteStream::try_parse_next`] stands for.
pub open spec fn step_of(r: Option<ParseOutcome>) -> Step {
    match r {
        None => Step::Continue,
        Some(ParseOutcome::Eof) => Step::NeedMore,
        Some(ParseOutcome::Value(frame)) => Step::Item(frame@),
        Some(ParseOutcome::End) => Step::End,
        Some(ParseOutcome::Invalid(detail)) => Step::Error(detail@),
    }
}

/// Moves of the state machine up to the first that yields something other
/// than [`Step::Continue`].
pub open spec fn pull(v: StreamView) -> (StreamView, Step)
    decreases v.pending.len(),
    via pull_decreases
{
    let (w, yielded) = step(v);
    if yielded is Continue {
        pull(w)
    } else {
        (w, yielded)
    }
}

#[via_fn]
proof fn pull_decreases(v: StreamView) {
    lemma_leading_whitespace(v.pending);
}

/// A fault that ends the stream.
#[derive(Debug)]
pub enum StreamError {
    /// The transport failed.
    Http,
    /// The bytes at the cursor cannot start an element; the text is the
    /// decoder's message.
    Serde(String),
    /// The transport ended while undigested bytes were left in a state that
    /// does not allow to stop.
    Incomplete { state: ParseState, unparsed: usize },
}

/// Ghost counterpart of [`StreamError`].
pub ghost enum Fault {
    Http,
    Serde(Seq<char>),
    Incomplete { state: ParseState, unparsed: nat },
}

impl View for StreamError {
    type V = Fault;

    open spec fn view(&self) -> Fault {
        match self {
            StreamError::Http => Fault::Http,
            StreamError::Serde(detail) => Fault::Serde(detail@),
            StreamError::Incomplete { state, unparsed } => Fault::Incomplete {
                state: *state,
                unparsed: *unparsed as nat,
            },
        }
    }
}

/// The name of a state.
pub open spec fn state_name(state: ParseState) -> Seq<char> {
    match state {
        ParseState::CannotAdvance => "CannotAdvance"@,
        ParseState::ReadingChars => "ReadingChars"@,
        ParseState::ReadingValue => "ReadingValue"@,
        ParseState::Finished => "Finished"@,
    }
}

/// The text that describes a fault.
pub open spec fn fault_text(fault: Fault) -> Seq<char> {
    match fault {
        Fault::Http => "transport failed"@,
        Fault::Serde(detail) => detail,
        Fault::Incomplete { state, unparsed } => "stream ended with "@ + decimal(unparsed)
            + " unparsed bytes in state "@ + state_name(state),
    }
}

impl ParseState {
    /// The name of the state.
    pub fn name(&self) -> (r: &'static str)
        ensures
            r@ == state_name(*self),
    {
        match self {
            ParseState::CannotAdvance => "CannotAdvance",
            ParseState::ReadingChars => "ReadingChars",
            ParseState::ReadingValue => "ReadingValue",
            ParseState::Finished => "Finished",
        }
    }
}

impl StreamError {
    /// A text that describes the fault: for an incomplete stream, the number
    /// of bytes left undigested and the state in which the parser stood.
    pub fn to_string(&self) -> (r: String)
        ensures
            r@ == fault_text(self@),
    {
        match self {
            StreamError::Http => String::from_str("transport failed"),
            StreamError::Serde(detail) => detail.clone(),
            StreamError::Incomplete { state, unparsed } => {
                let mut out = String::from_str("stream ended with ");
                push_decimal(&mut out, *unparsed);
                out.append(" unparsed bytes in state ");
                out.append(state.name());
                out
            },
        }
    }
}

/// What one pull on the sequence of elements gives.
#[derive(Debug)]
pub enum Pulled {
    /// The next element, by its bytes.
    Item(Vec<u8>),
    /// The stream failed; nothing follows.
    Failed(StreamError),
    /// The sequence is exhausted.
    Finished,
    /// The transport has to deliver before anything can be said.
    Pending,
}

/// Ghost counterpart of [`Pulled`].
pub ghost enum Pull {
    Item(Seq<u8>),
    Failed(Fault),
    Finished,
    Pending,
}

impl View for Pulled {
    type V = Pull;

    open spec fn view(&self) -> Pull {
        match self {
            Pulled::Item(frame) => Pull::Item(frame@),
            Pulled::Failed(e) => Pull::Failed(e@),
            Pulled::Finished => Pull::Finished,
            Pulled::Pending => Pull::Pending,
        }
    }
}

/// What the transport answered to a request for more bytes.
#[derive(Debug)]
pub enum Event {
    /// The next chunk.
    Chunk(Vec<u8>),
    /// The transport ended in good order.
    Closed,
    /// The transport failed.
    Broken,
}

/// Ghost counterpart of [`Event`].
pub ghost enum Delivery {
    Chunk(Seq<u8>),
    Closed,
    Broken,
}

impl View for Event {
    type V = Delivery;

    open spec fn view(&self) -> Delivery {
        match self {
            Event::Chunk(bytes) => Delivery::Chunk(bytes@),
            Event::Closed => Delivery::Closed,
            Event::Broken => Delivery::Broken,
        }
    }
}

/// What a pull gives for the step that ended it.
pub open spec fn pull_of(yielded: Step) -> Pull {
    match yielded {
        Step::Item(frame) => Pull::Item(frame),
        Step::Error(detail) => Pull::Failed(Fault::Serde(detail)),
        Step::End => Pull::Finished,
        Step::NeedMore | Step::Continue => Pull::Pending,
    }
}

/// The parser's answer to a clean end of the transport: the sequence ends in
/// good order if the array was closed or no byte is left undigested, and with
/// [`Fault::Incomplete`] otherwise. Either way the parser is finished.
pub open spec fn close(v: StreamView) -> (StreamView, Pull) {
    let w = StreamView { state: ParseState::Finished, pending: v.pending };
    if v.state == ParseState::Finished || v.pending.len() == 0 {
        (w, Pull::Finished)
    } else {
        (w, Pull::Failed(Fault::Incomplete { state: v.state, unparsed: v.pending.len() }))
    }
}

/// The parser's answer to what the transport delivered: a chunk is stored
/// and parsing goes on; a clean end is judged by [`close`]; a failure ends
/// the stream at once, and what was pending is discarded.
pub open spec fn resume(v: StreamView, delivery: Delivery) -> (StreamView, Pull) {
    match delivery {
        Delivery::Chunk(bytes) => {
            let (w, yielded) = pull(feed(v, bytes));
            (w, pull_of(yielded))
        },
        Delivery::Closed => close(v),
        Delivery::Broken => (
            StreamView { state: ParseState::Finished, pending: Seq::empty() },
            Pull::Failed(Fault::Http),
        ),
    }
}

/// Accumulated bytes of one response stream, with the cursor and the state
/// of the array parser.
#[derive(Debug)]
pub struct RouteStream {
    buffer: Vec<u8>,
    pos: usize,
    state: ParseState,
    threshold: usize,
}

impl View for RouteStream {
    type V = StreamView;

    open spec fn view(&self) -> StreamView {
        StreamView { state: self.parse_state(), pending: self.buffered().skip(self.cursor() as int) }
    }
}

impl RouteStream {
    /// All bytes held in memory, digested or not.
    pub closed spec fn buffered(&self) -> Seq<u8> {
        self.buffer@
    }

    /// Index into [`Self::buffered`] of the next byte to digest.
    pub closed spec fn cursor(&self) -> nat {
        self.pos as nat
    }

    /// The parser's state.
    pub closed spec fn parse_state(&self) -> ParseState {
        self.state
    }

    /// The cursor position above which the digested prefix is dropped.
    pub closed spec fn limit(&self) -> nat {
        self.threshold as nat
    }

    /// The cursor never leaves the buffer.
    pub open spec fn wf(&self) -> bool {
        self.cursor() <= self.buffered().len()
    }

    /// A stream that has received nothing, compacting above
    /// [`COMPACTION_THRESHOLD`] digested bytes.
    pub fn new() -> (s: Self)
        ensures
            s.wf(),
            s@ == (StreamView { state: ParseState::CannotAdvance, pending: Seq::empty() }),
            s.buffered().len() == 0,
            s.limit() == COMPACTION_THRESHOLD,
    {
        Self::with_threshold(COMPACTION_THRESHOLD)
    }

    /// A stream that has received nothing and drops its digested prefix once
    /// the cursor stands above `threshold`. With `usize::MAX` nothing is ever
    /// dropped.
    pub fn with_threshold(threshold: usize) -> (s: Self)
        ensures
            s.wf(),
            s@ == (StreamView { state: ParseState::CannotAdvance, pending: Seq::empty() }),
            s.buffered().len() == 0,
            s.limit() == threshold,
    {
        let s = RouteStream { buffer: Vec::new(), pos: 0, state: ParseState::CannotAdvance, threshold };
        assert(s.buffered().skip(0) =~= Seq::<u8>::empty());
        s
    }

    /// The parser's state.
    pub fn state(&self) -> (r: ParseState)
        ensures
            r == self@.state,
    {
        self.state
    }

    /// Number of bytes that have arrived and are not digested yet.
    pub fn unparsed_len(&self) -> (r: usize)
        requires
            self.wf(),
        ensures
            r == self@.pending.len(),
    {
        self.buffer.len() - self.pos
    }

    /// Number of bytes held in memory, digested ones included.
    pub fn buffered_len(&self) -> (r: usize)
        ensures
            r == self.buffered().len(),
    {
        self.buffer.len()
    }

    /// Stores newly arrived bytes behind those already held. The first
    /// non-empty chunk ever received starts the parser.
    pub fn append(&mut self, bytes: &[u8])
        requires
            old(self).wf(),
        ensures
            final(self).wf(),
            final(self)@ == feed(old(self)@, bytes@),
            final(self).buffered() == old(self).buffered() + bytes@,
            final(self).cursor() == old(self).cursor(),
            final(self).limit() == old(self).limit(),
    {
        if self.state == ParseState::CannotAdvance && bytes.len() > 0 {
            self.state = ParseState::ReadingChars;
        }
        self.buffer.extend_from_slice(bytes);
        assert(self.buffered().skip(self.cursor() as int) =~= old(self).buffered().skip(
            old(self).cursor() as int,
        ) + bytes@);
    }

    /// Drops the digested prefix once the cursor stands above the limit.
    /// What the parser has yet to read is untouched.
    pub fn compact(&mut self)
        requires
            old(self).wf(),
        ensures
            final(self).wf(),
            final(self)@ == old(self)@,
            final(self).limit() == old(self).limit(),
            old(self).cursor() > old(self).limit() ==> final(self).cursor() == 0
                && final(self).buffered() == old(self)@.pending,
            old(self).cursor() <= old(self).limit() ==> final(self).cursor() == old(self).cursor()
                && final(self).buffered() == old(self).buffered(),
    {
        if self.pos > self.threshold {
            let rest = self.buffer.split_off(self.pos);
            self.buffer = rest;
            self.pos = 0;
            assert(self.buffered().skip(0) =~= self.buffered());
            assert(self.buffered() =~= old(self).buffered().skip(old(self).cursor() as int));
        }
    }

    /// Position of the first byte at or behind the cursor that is no
    /// whitespace, if one has arrived.
    pub fn next_char_pos(&self) -> (r: Option<usize>)
        requires
            self.wf(),
        ensures
            match r {
                Some(p) => p == self.cursor() + leading_whitespace(self@.pending)
                    && p < self.buffered().len(),
                None => leading_whitespace(self@.pending) == self@.pending.len(),
            },
    {
        let mut i: usize = self.pos;
        let ghost pending = self@.pending;
        while i < self.buffer.len()
            invariant
                self.wf(),
                pending == self@.pending,
                self.pos <= i <= self.buffer.len(),
                forall|j: int| 0 <= j < i - self.pos ==> is_whitespace(#[trigger] pending[j]),
            decreases self.buffer.len() - i,
        {
            if !is_ascii_whitespace(self.buffer[i]) {
                proof {
                    lemma_leading_whitespace_is(pending, i - self.pos);
                }
                return Some(i);
            }
            i += 1;
        }
        proof {
            lemma_leading_whitespace_is(pending, i - self.pos);
        }
        None
    }

    /// Moves the cursor past whitespace and reports the byte it then stands
    /// on, if one has arrived.
    pub fn advance_next_char(&mut self) -> (r: Option<u8>)
        requires
            old(self).wf(),
        ensures
            final(self).wf(),
            final(self).buffered() == old(self).buffered(),
            final(self).limit() == old(self).limit(),
            final(self).cursor() == old(self).cursor() + leading_whitespace(old(self)@.pending),
            final(self)@ == (StreamView {
                state: old(self)@.state,
                pending: trim_start(old(self)@.pending),
            }),
            r == first_byte(final(self)@.pending),
    {
        self.pos = match self.next_char_pos() {
            Some(p) => p,
            None => self.buffer.len(),
        };
        assert(self.buffered().skip(self.cursor() as int) =~= trim_start(old(self)@.pending));
        self.current_char()
    }

    /// The byte under the cursor, if one has arrived.
    pub fn current_char(&self) -> (r: Option<u8>)
        requires
            self.wf(),
        ensures
            r == first_byte(self@.pending),
    {
        if self.pos < self.buffer.len() {
            Some(self.buffer[self.pos])
        } else {
            None
        }
    }

    /// Whether the cursor stands on a `[` or a `,`.
    pub fn is_bridge_char(&self) -> (r: bool)
        requires
            self.wf(),
        ensures
            r == (self@.pending.len() > 0 && (self@.pending[0] == OPEN_BRACKET
                || self@.pending[0] == COMMA)),
    {
        match self.current_char() {
            Some(b) => b == OPEN_BRACKET || b == COMMA,
            None => false,
        }
    }

    /// Acts on the decoder's verdict on the bytes from the cursor on: moves
    /// the cursor behind a decoded element and hands its bytes out, and
    /// passes a wait or an error on. The state is left as it is.
    pub fn accept(&mut self, decoded: Decoded) -> (r: ParseOutcome)
        requires
            old(self).wf(),
            decoded matches Decoded::Value { consumed } ==> consumed <= old(self)@.pending.len(),
        ensures
            final(self).wf(),
            final(self).limit() == old(self).limit(),
            final(self).buffered() == old(self).buffered(),
            final(self).cursor() >= old(self).cursor(),
            final(self).parse_state() == old(self).parse_state(),
            final(self)@.pending == settle(old(self)@.pending, decoded@).0,
            step_of(Some(r)) == settle(old(self)@.pending, decoded@).1,
    {
        match decoded {
            Decoded::Value { consumed } => {
                assert(self@.pending.len() == self.buffer.len() - self.pos);
                let end = self.pos + consumed;
                let frame = slice_to_vec(slice_subrange(self.buffer.as_slice(), self.pos, end));
                self.pos = end;
                assert(frame@ =~= old(self)@.pending.take(consumed as int));
                assert(self@.pending =~= old(self)@.pending.skip(consumed as int));
                ParseOutcome::Value(frame)
            },
            Decoded::Eof => ParseOutcome::Eof,
            Decoded::Empty => ParseOutcome::Eof,
            Decoded::Invalid { detail } => ParseOutcome::Invalid(detail),
        }
    }

    /// Tries to decode one element at the cursor and moves the cursor behind
    /// it on success. The state is left as it is.
    pub fn parse_chunk(&mut self) -> (r: ParseOutcome)
        requires
            old(self).wf(),
        ensures
            final(self).wf(),
            final(self).limit() == old(self).limit(),
            final(self).buffered() == old(self).buffered(),
            final(self).cursor() >= old(self).cursor(),
            final(self).parse_state() == old(self).parse_state(),
            final(self)@.pending == attempt(old(self)@.pending).0,
            step_of(Some(r)) == attempt(old(self)@.pending).1,
    {
        let len = self.buffer.len();
        if self.pos == len {
            return ParseOutcome::Eof;
        }
        let rest = slice_subrange(self.buffer.as_slice(), self.pos, len);
        assert(rest@ =~= self@.pending);
        let decoded = decode_prefix(rest);
        self.accept(decoded)
    }

    /// One move of the state machine. `None` says that a `[` or `,` was
    /// consumed and that the next move can follow at once.
    pub fn try_parse_next(&mut self) -> (r: Option<ParseOutcome>)
        requires
            old(self).wf(),
        ensures
            final(self).wf(),
            final(self).limit() == old(self).limit(),
            final(self).buffered() == old(self).buffered(),
            final(self).cursor() >= old(self).cursor(),
            final(self)@ == step(old(self)@).0,
            step_of(r) == step(old(self)@).1,
    {
        proof {
            lemma_leading_whitespace(self@.pending);
        }
        match self.state {
            ParseState::CannotAdvance => Some(ParseOutcome::Eof),
            ParseState::ReadingChars => {
                let at = self.advance_next_char();
                if self.is_bridge_char() {
                    assert(self@.pending.len() == self.buffer.len() - self.pos);
                    self.pos = self.pos + 1;
                    self.state = ParseState::ReadingValue;
                    assert(self@.pending =~= trim_start(old(self)@.pending).skip(1));
                    None
                } else if at == Some(CLOSE_BRACKET) {
                    self.state = ParseState::Finished;
                    Some(ParseOutcome::End)
                } else {
                    Some(ParseOutcome::Eof)
                }
            },
            ParseState::ReadingValue => {
                let _ = self.advance_next_char();
                let outcome = self.parse_chunk();
                match &outcome {
                    ParseOutcome::Value(_) => {
                        self.state = ParseState::ReadingChars;
                    },
                    ParseOutcome::End | ParseOutcome::Invalid(_) => {
                        self.state = ParseState::Finished;
                    },
                    ParseOutcome::Eof => {},
                }
                Some(outcome)
            },
            ParseState::Finished => Some(ParseOutcome::End),
        }
    }

    /// Pulls on the sequence with the bytes at hand: before each move of the
    /// state machine it compacts, and it moves the machine until that yields
    /// an element, ends, fails or runs out of bytes.
    ///
    /// The digested bytes still held afterwards are at most the limit and
    /// what this pull has digested.
    pub fn poll_next(&mut self) -> (r: Pulled)
        requires
            old(self).wf(),
        ensures
            final(self).wf(),
            final(self).limit() == old(self).limit(),
            final(self)@ == pull(old(self)@).0,
            r@ == pull_of(pull(old(self)@).1),
            final(self).cursor() + final(self)@.pending.len() <= old(self).limit() + old(
                self,
            )@.pending.len(),
    {
        loop
            invariant
                self.wf(),
                self.limit() == old(self).limit(),
                pull(self@) == pull(old(self)@),
                self@.pending.len() <= old(self)@.pending.len(),
            decreases self@.pending.len(),
        {
            self.compact();
            proof {
                lemma_leading_whitespace(self@.pending);
            }
            match self.try_parse_next() {
                Some(ParseOutcome::Value(frame)) => {
                    return Pulled::Item(frame);
                },
                Some(ParseOutcome::End) => {
                    return Pulled::Finished;
                },
                Some(ParseOutcome::Invalid(detail)) => {
                    return Pulled::Failed(StreamError::Serde(detail));
                },
                Some(ParseOutcome::Eof) => {
                    return Pulled::Pending;
                },
                None => {},
            }
        }
    }

    /// Ends the stream from outside, as when the consumer cannot use an
    /// element: whatever is held, the sequence is exhausted from now on.
    pub fn abort(&mut self)
        requires
            old(self).wf(),
        ensures
            final(self).wf(),
            final(self).limit() == old(self).limit(),
            final(self)@ == (StreamView {
                state: ParseState::Finished,
                pending: old(self)@.pending,
            }),
    {
        self.state = ParseState::Finished;
    }

    /// Takes what the transport delivered and says what the sequence gives
    /// next.
    pub fn resume(&mut self, event: Event) -> (r: Pulled)
        requires
            old(self).wf(),
        ensures
            final(self).wf(),
            final(self).limit() == old(self).limit(),
            final(self)@ == resume(old(self)@, event@).0,
            r@ == resume(old(self)@, event@).1,
    {
        match event {
            Event::Chunk(bytes) => {
                self.append(bytes.as_slice());
                self.poll_next()
            },
            Event::Closed => {
                let clean = self.state == ParseState::Finished || self.pos == self.buffer.len();
                let state = self.state;
                let unparsed = self.unparsed_len();
                self.state = ParseState::Finished;
                if clean {
                    Pulled::Finished
                } else {
                    Pulled::Failed(StreamError::Incomplete { state, unparsed })
                }
            },
            Event::Broken => {
                self.state = ParseState::Finished;
                self.buffer.clear();
                self.pos = 0;
                assert(self.buffered().skip(0) =~= Seq::<u8>::empty());
                Pulled::Failed(StreamError::Http)
            },
        }
    }
}

} // verus!
