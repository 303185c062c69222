//! Laws of the stream parser over array texts.
//!
//! The parser leaves the reading of an element to the decoder, so the laws
//! speak of byte strings on which the decoder is decided: it gives the same
//! verdict whatever follows them, and asks for more on every shorter
//! beginning. Over arrays of such elements the pull sequence is the same
//! however the transport cuts the text into chunks.

use vstd::prelude::*;
use crate::decode::Scan;
use crate::decode::json_scan;
use crate::framing::Trace;
use crate::framing::concat;
use crate::framing::drain;
use crate::framing::initial;
use crate::framing::lemma_pull_shrinks;
use crate::framing::run;
use crate::stream::CLOSE_BRACKET;
use crate::stream::COMMA;
use crate::stream::OPEN_BRACKET;
use crate::stream::Fault;
use crate::stream::ParseState;
use crate::stream::Pull;
use crate::stream::Step;
use crate::stream::StreamView;
use crate::stream::feed;
use crate::stream::is_whitespace;
use crate::stream::leading_whitespace;
use crate::stream::lemma_leading_whitespace;
use crate::stream::lemma_leading_whitespace_is;
use crate::stream::pull;
use crate::stream::step;
use crate::stream::trim_start;

verus! {

/// The whitespace prefix of `p + f` is that of `p` if `p` holds a byte that
/// is no whitespace, and else all of `p` with the whitespace prefix of `f`.
pub proof fn lemma_leading_whitespace_concat(p: Seq<u8>, f: Seq<u8>)
    ensures
        leading_whitespace(p) <= p.len(),
        leading_whitespace(p) < p.len() ==> leading_whitespace(p + f) == leading_whitespace(p)
            && trim_start(p + f) == trim_start(p) + f,
        leading_whitespace(p) == p.len() ==> leading_whitespace(p + f) == p.len()
            + leading_whitespace(f) && trim_start(p + f) == trim_start(f),
{
    lemma_leading_whitespace(p);
    lemma_leading_whitespace(f);
    let k = leading_whitespace(p) as int;
    let s = p + f;
    if k < p.len() {
        assert forall|i: int| 0 <= i < k implies is_whitespace(#[trigger] s[i]) by {
            assert(s[i] == p[i]);
        }
        assert(s[k] == p[k]);
        lemma_leading_whitespace_is(s, k);
        assert(s.skip(k) =~= p.skip(k) + f);
    } else {
        let j = leading_whitespace(f) as int;
        assert forall|i: int| 0 <= i < k + j implies is_whitespace(#[trigger] s[i]) by {
            if i < k {
                assert(s[i] == p[i]);
            } else {
                assert(s[i] == f[i - k]);
            }
        }
        if k + j < s.len() {
            assert(s[k + j] == f[j]);
        }
        lemma_leading_whitespace_is(s, k + j);
        assert(s.skip(k + j) =~= f.skip(j));
    }
}

/// A byte string that starts with a byte that is no whitespace has no
/// whitespace prefix.
pub proof fn lemma_trimmed_is_fixed(s: Seq<u8>)
    requires
        s.len() == 0 || !is_whitespace(s[0]),
    ensures
        leading_whitespace(s) == 0,
        trim_start(s) == s,
{
    assert(s.skip(0) =~= s);
}

/// Whether the decoder asks for more input.
pub open spec fn wants_more(scan: Scan) -> bool {
    scan is Eof || scan is Empty
}

/// The decoder is decided on `bytes`: it gives `verdict` on them whatever
/// follows, and asks for more on each of their shorter beginnings. They
/// start with a byte that is no whitespace.
pub open spec fn is_decided(bytes: Seq<u8>, verdict: Scan) -> bool {
    &&& bytes.len() > 0
    &&& !is_whitespace(bytes[0])
    &&& forall|t: Seq<u8>| #[trigger] json_scan(bytes + t) == verdict
    &&& forall|n: int| 0 < n < bytes.len() ==> wants_more(json_scan(#[trigger] bytes.take(n)))
}

/// A byte string that the decoder reads as exactly one value, whatever
/// follows it, and of which it takes every shorter beginning for unfinished.
/// A JSON object is one: it begins with `{`, and only its last byte, the
/// matching `}`, completes it.
pub open spec fn is_element(e: Seq<u8>) -> bool {
    is_decided(e, Scan::Value { consumed: e.len() })
}

/// A byte string that the decoder rejects with `detail` as soon as it has
/// seen all of it, whatever follows, and not before.
pub open spec fn is_rejected(bytes: Seq<u8>, detail: Seq<char>) -> bool {
    is_decided(bytes, Scan::Invalid { detail })
}

/// What stands behind the last element of a text.
pub ghost enum Tail {
    /// The closing `]`.
    Closed,
    /// A separator and the first `len` bytes of `element`, with which the
    /// text ends.
    Cut { element: Seq<u8>, len: nat },
    /// A separator and `bytes`, which the decoder rejects with `detail`.
    Rejected { bytes: Seq<u8>, detail: Seq<char> },
}

/// How the pull sequence ends on a text with the tail `tail`: in good order
/// at the closing bracket, with the count of the bytes of the element that
/// was cut short, or with the decoder's complaint.
pub open spec fn end_of(tail: Tail) -> Option<Fault> {
    match tail {
        Tail::Closed => None,
        Tail::Cut { element, len } => Some(
            Fault::Incomplete { state: ParseState::ReadingValue, unparsed: len },
        ),
        Tail::Rejected { bytes, detail } => Some(Fault::Serde(detail)),
    }
}

/// `rest` continues a text from a parser state on with exactly the elements
/// `elems` and then `tail`.
///
/// Where a structural character is due, `rest` holds optional whitespace and
/// then `]` if neither an element nor another tail is left, else `[` or `,`
/// and what an element is due on. Where an element is due, `rest` holds
/// optional whitespace and the first of `elems`, and then what a structural
/// character is due on; with no element left it holds optional whitespace
/// and then the bytes that the tail names, which for a cut-off element are
/// all there is.
pub open spec fn expects(state: ParseState, rest: Seq<u8>, elems: Seq<Seq<u8>>, tail: Tail) -> bool
    decreases elems.len(), (if state == ParseState::ReadingValue { 0int } else { 1int }),
{
    let t = trim_start(rest);
    match state {
        ParseState::ReadingChars => {
            &&& t.len() > 0
            &&& if elems.len() == 0 && tail is Closed {
                t[0] == CLOSE_BRACKET
            } else {
                &&& t[0] == OPEN_BRACKET || t[0] == COMMA
                &&& expects(ParseState::ReadingValue, t.skip(1), elems, tail)
            }
        },
        ParseState::ReadingValue => {
            if elems.len() > 0 {
                &&& is_element(elems[0])
                &&& elems[0].len() <= t.len()
                &&& t.take(elems[0].len() as int) == elems[0]
                &&& expects(
                    ParseState::ReadingChars,
                    t.skip(elems[0].len() as int),
                    elems.skip(1),
                    tail,
                )
            } else {
                match tail {
                    Tail::Closed => false,
                    Tail::Cut { element, len } => {
                        &&& is_element(element)
                        &&& 0 < len < element.len()
                        &&& t == element.take(len as int)
                    },
                    Tail::Rejected { bytes, detail } => {
                        &&& is_rejected(bytes, detail)
                        &&& bytes.len() <= t.len()
                        &&& t.take(bytes.len() as int) == bytes
                    },
                }
            }
        },
        _ => false,
    }
}

/// Whether a state is one in which the parser reads.
pub open spec fn is_reading(state: ParseState) -> bool {
    state == ParseState::ReadingChars || state == ParseState::ReadingValue
}

/// Whether the parser has all of a text whose last element was cut short,
/// and waits in vain for the rest of that element.
pub open spec fn is_stranded(v: StreamView, elems: Seq<Seq<u8>>, tail: Tail) -> bool {
    &&& elems.len() == 0
    &&& v.state == ParseState::ReadingValue
    &&& v.pending.len() > 0
    &&& tail matches Tail::Cut { element, len } && v.pending == element.take(len as int)
        && v.pending.len() == len
}

/// Only the bytes behind the whitespace prefix matter to [`expects`].
pub proof fn lemma_expects_trimmed(
    state: ParseState,
    a: Seq<u8>,
    b: Seq<u8>,
    elems: Seq<Seq<u8>>,
    tail: Tail,
)
    requires
        trim_start(a) == trim_start(b),
    ensures
        expects(state, a, elems, tail) == expects(state, b, elems, tail),
{
}

/// The decoder's verdict on bytes that begin with all of, or a beginning
/// of, a byte string on which it is decided.
proof fn lemma_decided(bytes: Seq<u8>, verdict: Scan, rest: Seq<u8>, t: Seq<u8>, future: Seq<u8>)
    requires
        is_decided(bytes, verdict),
        rest.len() > 0,
        t == rest + future,
        bytes.len() <= t.len() ==> t.take(bytes.len() as int) == bytes,
        bytes.len() > t.len() ==> exists|n: int| 0 < n < bytes.len() && t == bytes.take(n),
    ensures
        rest.len() >= bytes.len() ==> json_scan(rest) == verdict && rest.take(bytes.len() as int)
            == bytes,
        rest.len() < bytes.len() ==> wants_more(json_scan(rest)) && rest == bytes.take(
            rest.len() as int,
        ),
{
    let n = bytes.len() as int;
    if rest.len() >= n {
        let tail = rest.skip(n);
        assert(rest.take(n) =~= t.take(n));
        assert(rest =~= bytes + tail);
        assert(json_scan(bytes + tail) == verdict);
    } else {
        let m = rest.len() as int;
        assert(rest =~= bytes.take(m)) by {
            if bytes.len() <= t.len() {
                assert forall|i: int| 0 <= i < m implies rest[i] == bytes[i] by {
                    assert(t.take(n)[i] == t[i]);
                }
            } else {
                let k = choose|k: int| 0 < k < bytes.len() && t == bytes.take(k);
                assert forall|i: int| 0 <= i < m implies rest[i] == bytes[i] by {
                    assert(t[i] == bytes.take(k)[i]);
                }
            }
        }
        assert(wants_more(json_scan(bytes.take(m))));
    }
}

/// One move of a parser that stands in a text as [`expects`] describes
/// keeps to the text: it consumes a structural character, yields the next
/// element, sees the end once all elements are out, fails on the bytes that
/// the decoder rejects, or waits: for bytes that have yet to arrive, or in
/// vain where the text ends inside an element.
pub proof fn lemma_step_follows(v: StreamView, future: Seq<u8>, elems: Seq<Seq<u8>>, tail: Tail)
    requires
        is_reading(v.state),
        expects(v.state, v.pending + future, elems, tail),
    ensures
        match step(v).1 {
            Step::Continue => {
                &&& v.state == ParseState::ReadingChars
                &&& step(v).0.state == ParseState::ReadingValue
                &&& expects(step(v).0.state, step(v).0.pending + future, elems, tail)
            },
            Step::Item(frame) => {
                &&& step(v).0.state == ParseState::ReadingChars
                &&& elems.len() > 0
                &&& frame == elems[0]
                &&& expects(step(v).0.state, step(v).0.pending + future, elems.skip(1), tail)
            },
            Step::End => elems.len() == 0 && tail is Closed,
            Step::NeedMore => {
                &&& step(v).0.state == v.state
                &&& expects(step(v).0.state, step(v).0.pending + future, elems, tail)
                &&& future.len() > 0 || is_stranded(step(v).0, elems, tail)
            },
            Step::Error(detail) => elems.len() == 0 && end_of(tail) == Some(Fault::Serde(detail)),
        },
{
    let p = v.pending;
    let whole = p + future;
    let t = trim_start(whole);
    let rest = trim_start(p);
    lemma_leading_whitespace_concat(p, future);
    lemma_leading_whitespace(p);
    lemma_leading_whitespace(future);
    lemma_leading_whitespace(whole);
    if rest.len() == 0 {
        assert(t == trim_start(future));
        assert(rest + future =~= future);
        lemma_expects_trimmed(v.state, whole, rest + future, elems, tail);
        assert(t.len() > 0);
    } else {
        assert(t == rest + future);
        assert(t[0] == rest[0]);
        assert(!is_whitespace(rest[0]));
        lemma_trimmed_is_fixed(rest);
        lemma_leading_whitespace_concat(rest, future);
        assert(trim_start(rest + future) == t);
        lemma_expects_trimmed(v.state, whole, rest + future, elems, tail);
        if v.state == ParseState::ReadingChars {
            assert(t.skip(1) =~= rest.skip(1) + future);
        } else if elems.len() > 0 {
            let e = elems[0];
            let n = e.len() as int;
            lemma_decided(e, Scan::Value { consumed: e.len() }, rest, t, future);
            if rest.len() >= n {
                assert(t.skip(n) =~= rest.skip(n) + future);
            }
        } else {
            match tail {
                Tail::Closed => {},
                Tail::Cut { element, len } => {
                    assert(t == element.take(len as int));
                    assert(element.len() > t.len());
                    lemma_decided(
                        element,
                        Scan::Value { consumed: element.len() },
                        rest,
                        t,
                        future,
                    );
                    if future.len() == 0 {
                        assert(rest =~= t);
                    }
                },
                Tail::Rejected { bytes, detail } => {
                    lemma_decided(bytes, Scan::Invalid { detail }, rest, t, future);
                },
            }
        }
    }
}

/// A pull of a parser that stands in a text as [`expects`] describes yields
/// the next element, sees the end once all elements are out, fails on the
/// bytes that the decoder rejects, or waits.
pub proof fn lemma_pull_follows(v: StreamView, future: Seq<u8>, elems: Seq<Seq<u8>>, tail: Tail)
    requires
        is_reading(v.state),
        expects(v.state, v.pending + future, elems, tail),
    ensures
        match pull(v).1 {
            Step::Item(frame) => {
                &&& elems.len() > 0
                &&& frame == elems[0]
                &&& is_reading(pull(v).0.state)
                &&& expects(pull(v).0.state, pull(v).0.pending + future, elems.skip(1), tail)
            },
            Step::End => elems.len() == 0 && tail is Closed,
            Step::NeedMore => {
                &&& is_reading(pull(v).0.state)
                &&& expects(pull(v).0.state, pull(v).0.pending + future, elems, tail)
                &&& future.len() > 0 || is_stranded(pull(v).0, elems, tail)
            },
            Step::Error(detail) => elems.len() == 0 && end_of(tail) == Some(Fault::Serde(detail)),
            Step::Continue => false,
        },
    decreases v.pending.len(),
{
    lemma_leading_whitespace(v.pending);
    lemma_step_follows(v, future, elems, tail);
    if step(v).1 is Continue {
        lemma_pull_follows(step(v).0, future, elems, tail);
    }
}

/// Pulling on a parser that stands in a text as [`expects`] describes
/// yields elements of the text in order, and stops behind the last of them
/// as the tail has it, or earlier where bytes have yet to arrive.
pub proof fn lemma_drain_follows(v: StreamView, future: Seq<u8>, elems: Seq<Seq<u8>>, tail: Tail)
    requires
        is_reading(v.state),
        expects(v.state, v.pending + future, elems, tail),
    ensures
        drain(v).items.len() <= elems.len(),
        drain(v).items == elems.take(drain(v).items.len() as int),
        match drain(v).last {
            Pull::Finished => drain(v).items == elems && tail is Closed,
            Pull::Failed(fault) => drain(v).items == elems && end_of(tail) == Some(fault),
            Pull::Pending => {
                &&& is_reading(drain(v).view.state)
                &&& expects(
                    drain(v).view.state,
                    drain(v).view.pending + future,
                    elems.skip(drain(v).items.len() as int),
                    tail,
                )
                &&& future.len() > 0 || (drain(v).items == elems && is_stranded(
                    drain(v).view,
                    elems.skip(drain(v).items.len() as int),
                    tail,
                ))
            },
            Pull::Item(_) => false,
        },
    decreases v.pending.len(), (if v.state == ParseState::ReadingValue { 1int } else { 0int }),
{
    lemma_pull_follows(v, future, elems, tail);
    lemma_pull_shrinks(v);
    let (w, yielded) = pull(v);
    match yielded {
        Step::Item(frame) => {
            let rest = elems.skip(1);
            lemma_drain_follows(w, future, rest, tail);
            let d = drain(w);
            let k = d.items.len() as int;
            assert(drain(v).items =~= elems.take(k + 1)) by {
                assert(rest.take(k) =~= elems.subrange(1, k + 1));
            }
            assert(rest.skip(k) =~= elems.skip(k + 1));
            if d.items == rest {
                assert(elems.take(k + 1) =~= elems);
            }
        },
        _ => {
            assert(elems.take(0) =~= Seq::<Seq<u8>>::empty());
            assert(elems.skip(0) =~= elems);
            if elems.len() == 0 {
                assert(elems =~= Seq::<Seq<u8>>::empty());
            }
        },
    }
}

/// A parser that stands in a text as [`expects`] describes, over a
/// transport that delivers the rest of the text in any chunks, yields
/// exactly the remaining elements and ends as the tail has it.
pub proof fn lemma_run_follows(
    v: StreamView,
    chunks: Seq<Seq<u8>>,
    elems: Seq<Seq<u8>>,
    tail: Tail,
)
    requires
        is_reading(v.state),
        expects(v.state, v.pending + concat(chunks), elems, tail),
    ensures
        run(v, chunks) == (Trace { items: elems, end: end_of(tail) }),
    decreases chunks.len(),
{
    let future = concat(chunks);
    lemma_drain_follows(v, future, elems, tail);
    let d = drain(v);
    if d.last is Pending && chunks.len() > 0 {
        let k = d.items.len() as int;
        let w = feed(d.view, chunks[0]);
        let later = chunks.skip(1);
        assert(w.pending + concat(later) =~= d.view.pending + future);
        lemma_run_follows(w, later, elems.skip(k), tail);
        assert(elems.take(k) + elems.skip(k) =~= elems);
    }
}

/// A transport that delivers, in any chunks, a text of elements and a tail
/// yields exactly the elements, in their order, and then ends as the tail
/// has it: in good order behind the closing bracket, with one incomplete
/// stream fault where the text ends inside an element, and with one decode
/// fault where the decoder rejects what stands in an element's place.
pub proof fn lemma_text_yields_elements(chunks: Seq<Seq<u8>>, elems: Seq<Seq<u8>>, tail: Tail)
    requires
        expects(ParseState::ReadingChars, concat(chunks), elems, tail),
    ensures
        run(initial(), chunks) == (Trace { items: elems, end: end_of(tail) }),
    decreases chunks.len(),
{
    let text = concat(chunks);
    lemma_leading_whitespace(text);
    assert(chunks.len() > 0);
    let d = drain(initial());
    assert(d.view == initial() && d.items == Seq::<Seq<u8>>::empty() && d.last == Pull::Pending);
    let later = chunks.skip(1);
    let w = feed(initial(), chunks[0]);
    assert(Seq::<Seq<u8>>::empty() + elems =~= elems);
    if chunks[0].len() == 0 {
        assert(w.pending =~= initial().pending);
        assert(text =~= concat(later));
        lemma_text_yields_elements(later, elems, tail);
    } else {
        assert(w.pending + concat(later) =~= text);
        lemma_run_follows(w, later, elems, tail);
    }
}

/// `text` is a JSON array with the elements `elems`, of which there is at
/// least one: optional whitespace, `[`, the elements with a `,` between each
/// two, and `]`, with optional whitespace before each element and each
/// structural character. What follows the `]` is left open.
pub open spec fn is_array_of(text: Seq<u8>, elems: Seq<Seq<u8>>) -> bool {
    let t = trim_start(text);
    &&& elems.len() > 0
    &&& t.len() > 0
    &&& t[0] == OPEN_BRACKET
    &&& holds_elements(t.skip(1), elems)
}

/// `rest` holds the elements `elems`, with a `,` between each two, and then
/// `]`, with optional whitespace before each of them.
pub open spec fn holds_elements(rest: Seq<u8>, elems: Seq<Seq<u8>>) -> bool
    recommends
        elems.len() > 0,
    decreases elems.len(),
{
    let t = trim_start(rest);
    &&& elems.len() > 0
    &&& is_element(elems[0])
    &&& elems[0].len() <= t.len()
    &&& t.take(elems[0].len() as int) == elems[0]
    &&& {
        let u = trim_start(t.skip(elems[0].len() as int));
        &&& u.len() > 0
        &&& if elems.len() == 1 {
            u[0] == CLOSE_BRACKET
        } else {
            u[0] == COMMA && holds_elements(u.skip(1), elems.skip(1))
        }
    }
}

/// An array text is what a parser expects that is due on an element behind
/// the opening bracket.
pub proof fn lemma_elements_expected(rest: Seq<u8>, elems: Seq<Seq<u8>>)
    requires
        holds_elements(rest, elems),
    ensures
        expects(ParseState::ReadingValue, rest, elems, Tail::Closed),
    decreases elems.len(),
{
    let t = trim_start(rest);
    let after = t.skip(elems[0].len() as int);
    let u = trim_start(after);
    if elems.len() > 1 {
        lemma_elements_expected(u.skip(1), elems.skip(1));
    } else {
        assert(elems.skip(1).len() == 0);
    }
    assert(expects(ParseState::ReadingChars, after, elems.skip(1), Tail::Closed));
}

/// An array of elements, delivered in any chunks, is decoded into exactly
/// its elements, in their order, and the sequence then ends in good order.
pub proof fn lemma_array_yields_elements(chunks: Seq<Seq<u8>>, elems: Seq<Seq<u8>>)
    requires
        is_array_of(concat(chunks), elems),
    ensures
        run(initial(), chunks) == (Trace { items: elems, end: None }),
{
    let text = concat(chunks);
    lemma_elements_expected(trim_start(text).skip(1), elems);
    lemma_text_yields_elements(chunks, elems, Tail::Closed);
}

/// Two transports that deliver the same array text yield the same sequence,
/// however differently they cut the text into chunks.
pub proof fn lemma_chunking_is_irrelevant(
    a: Seq<Seq<u8>>,
    b: Seq<Seq<u8>>,
    elems: Seq<Seq<u8>>,
)
    requires
        concat(a) == concat(b),
        is_array_of(concat(a), elems),
    ensures
        run(initial(), a) == run(initial(), b),
{
    lemma_array_yields_elements(a, elems);
    lemma_array_yields_elements(b, elems);
}

/// `text` is the beginning of an array: optional whitespace, `[`, optional
/// whitespace, and then `rest`, with which it ends.
pub open spec fn opens_with(text: Seq<u8>, rest: Seq<u8>) -> bool {
    let t = trim_start(text);
    &&& t.len() > 0
    &&& t[0] == OPEN_BRACKET
    &&& trim_start(t.skip(1)) == rest
}

/// A transport that ends inside the first element of an array yields no
/// element and exactly one fault: that of an incomplete stream, with the
/// count of the bytes of the element that had arrived.
pub proof fn lemma_unterminated_element_is_incomplete(
    chunks: Seq<Seq<u8>>,
    element: Seq<u8>,
    len: nat,
)
    requires
        is_element(element),
        0 < len < element.len(),
        opens_with(concat(chunks), element.take(len as int)),
    ensures
        run(initial(), chunks) == (Trace {
            items: Seq::empty(),
            end: Some(Fault::Incomplete { state: ParseState::ReadingValue, unparsed: len }),
        }),
{
    let tail = Tail::Cut { element, len };
    let t = trim_start(concat(chunks));
    assert(expects(ParseState::ReadingValue, t.skip(1), Seq::empty(), tail));
    lemma_text_yields_elements(chunks, Seq::empty(), tail);
}

/// A transport whose array holds, in place of its first element, bytes that
/// the decoder rejects yields no element and exactly one fault: the
/// decoder's.
pub proof fn lemma_invalid_token_is_decode_error(
    chunks: Seq<Seq<u8>>,
    bytes: Seq<u8>,
    detail: Seq<char>,
    rest: Seq<u8>,
)
    requires
        is_rejected(bytes, detail),
        opens_with(concat(chunks), bytes + rest),
    ensures
        run(initial(), chunks) == (Trace {
            items: Seq::empty(),
            end: Some(Fault::Serde(detail)),
        }),
{
    let tail = Tail::Rejected { bytes, detail };
    let t = trim_start(concat(chunks));
    assert(trim_start(t.skip(1)).take(bytes.len() as int) =~= bytes);
    assert(expects(ParseState::ReadingValue, t.skip(1), Seq::empty(), tail));
    lemma_text_yields_elements(chunks, Seq::empty(), tail);
}

/// `s` holds optional whitespace and then a `]`.
pub open spec fn closes_at_once(s: Seq<u8>) -> bool {
    let t = trim_start(s);
    t.len() > 0 && t[0] == CLOSE_BRACKET
}

/// `text` begins with an array that has no element: optional whitespace,
/// `[`, optional whitespace and `]`.
pub open spec fn is_empty_array(text: Seq<u8>) -> bool {
    let t = trim_start(text);
    t.len() > 0 && t[0] == OPEN_BRACKET && closes_at_once(t.skip(1))
}

/// Whether a pull sequence has yielded an element or ended with a fault.
pub open spec fn is_refused(trace: Trace) -> bool {
    trace.items.len() > 0 || trace.end is Some
}

proof fn lemma_bracket_for_element(v: StreamView, chunks: Seq<Seq<u8>>)
    requires
        v.state == ParseState::ReadingValue,
        closes_at_once(v.pending + concat(chunks)),
    ensures
        is_refused(run(v, chunks)),
    decreases chunks.len(),
{
    let future = concat(chunks);
    lemma_leading_whitespace_concat(v.pending, future);
    lemma_leading_whitespace(v.pending);
    lemma_pull_shrinks(v);
    let (w, yielded) = pull(v);
    let d = drain(v);
    assert(pull(v) == step(v));
    if yielded is NeedMore {
        assert(w.pending == trim_start(v.pending));
        assert(trim_start(w.pending + future) == trim_start(v.pending + future)) by {
            if w.pending.len() == 0 {
                assert(w.pending + future =~= future);
            } else {
                lemma_trimmed_is_fixed(w.pending);
                lemma_leading_whitespace_concat(w.pending, future);
            }
        }
        if chunks.len() == 0 {
            assert(w.pending + future =~= w.pending);
        } else {
            let x = feed(w, chunks[0]);
            assert(x.pending + concat(chunks.skip(1)) =~= w.pending + future);
            lemma_bracket_for_element(x, chunks.skip(1));
        }
    }
}

proof fn lemma_empty_array_from_bracket(v: StreamView, chunks: Seq<Seq<u8>>)
    requires
        v.state == ParseState::ReadingChars,
        is_empty_array(v.pending + concat(chunks)),
    ensures
        is_refused(run(v, chunks)),
    decreases chunks.len(),
{
    let future = concat(chunks);
    let rest = trim_start(v.pending);
    lemma_leading_whitespace_concat(v.pending, future);
    lemma_leading_whitespace(v.pending);
    lemma_leading_whitespace(v.pending + future);
    if rest.len() == 0 {
        let w = step(v).0;
        assert(pull(v) == (w, Step::NeedMore));
        assert(w.pending + future =~= future);
        assert(trim_start(w.pending + future) == trim_start(v.pending + future));
        assert(chunks.len() > 0);
        let x = feed(w, chunks[0]);
        assert(x.pending + concat(chunks.skip(1)) =~= w.pending + future);
        lemma_empty_array_from_bracket(x, chunks.skip(1));
    } else {
        let w = step(v).0;
        assert(step(v).1 is Continue);
        assert(pull(v) == pull(w));
        assert(drain(v) == drain(w));
        assert(run(v, chunks) == run(w, chunks));
        assert(w.pending + future =~= trim_start(v.pending + future).skip(1));
        lemma_bracket_for_element(w, chunks);
    }
}

/// An array without elements is not taken for an empty sequence. Behind the
/// `[` an element is due, so the `]` is handed to the decoder for one; and
/// whatever the decoder makes of it, the pull sequence yields an element or
/// ends with a fault.
pub proof fn lemma_empty_array_is_refused(chunks: Seq<Seq<u8>>)
    requires
        is_empty_array(concat(chunks)),
    ensures
        is_refused(run(initial(), chunks)),
    decreases chunks.len(),
{
    let text = concat(chunks);
    lemma_leading_whitespace(text);
    assert(chunks.len() > 0);
    let d = drain(initial());
    assert(d.view == initial() && d.items == Seq::<Seq<u8>>::empty() && d.last == Pull::Pending);
    let later = chunks.skip(1);
    let w = feed(initial(), chunks[0]);
    if chunks[0].len() == 0 {
        assert(w.pending =~= initial().pending);
        assert(text =~= concat(later));
        lemma_empty_array_is_refused(later);
    } else {
        assert(w.pending + concat(later) =~= text);
        lemma_empty_array_from_bracket(w, later);
    }
}

} // verus!
