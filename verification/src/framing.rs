//! What the stream parser makes of a whole transport.
//!
//! A transport is modelled by the chunks it delivers before it ends in good
//! order. [`run`] gives the elements that the pull sequence yields for it and
//! how the sequence ends, and [`collect`] computes just that.

use vstd::prelude::*;
use crate::stream::Delivery;
use crate::stream::Event;
use crate::stream::Fault;
use crate::stream::ParseState;
use crate::stream::Pull;
use crate::stream::Pulled;
use crate::stream::RouteStream;
use crate::stream::Step;
use crate::stream::StreamError;
use crate::stream::StreamView;
use crate::stream::close;
use crate::stream::feed;
use crate::stream::lemma_leading_whitespace;
use crate::stream::pull;
use crate::stream::pull_of;
use crate::stream::resume;
use crate::stream::step;
use crate::stream::trim_start;

verus! {

/// The view of a stream that has received nothing.
pub open spec fn initial() -> StreamView {
    StreamView { state: ParseState::CannotAdvance, pending: Seq::empty() }
}

/// All bytes of `chunks`, in order.
pub open spec fn concat(chunks: Seq<Seq<u8>>) -> Seq<u8>
    decreases chunks.len(),
{
    if chunks.len() == 0 {
        Seq::empty()
    } else {
        chunks[0] + concat(chunks.skip(1))
    }
}

/// Whether `a` is what is left of `b` behind some of its first bytes.
pub open spec fn is_rest_of(a: Seq<u8>, b: Seq<u8>) -> bool {
    a.len() <= b.len() && a == b.skip(b.len() - a.len())
}

/// The cursor only moves forward: what is pending after a move of the state
/// machine is what was pending before, less some of its first bytes.
pub proof fn lemma_step_moves_forward(v: StreamView)
    ensures
        is_rest_of(step(v).0.pending, v.pending),
{
    lemma_leading_whitespace(v.pending);
    let rest = trim_start(v.pending);
    let w = step(v).0.pending;
    assert(v.pending.skip(0) =~= v.pending);
    assert(rest.skip(0) =~= rest);
    if w.len() <= rest.len() {
        assert(w =~= rest.skip(rest.len() - w.len()));
        assert(w =~= v.pending.skip(v.pending.len() - w.len()));
    }
}

/// The cursor only moves forward: what is pending after a pull is what was
/// pending before, less some of its first bytes.
pub proof fn lemma_pull_moves_forward(v: StreamView)
    ensures
        is_rest_of(pull(v).0.pending, v.pending),
    decreases v.pending.len(),
{
    lemma_leading_whitespace(v.pending);
    lemma_step_moves_forward(v);
    let w = step(v).0;
    if step(v).1 is Continue {
        lemma_pull_moves_forward(w);
        let x = pull(w).0.pending;
        assert(x =~= v.pending.skip(v.pending.len() - x.len()));
    }
}

/// A finished parser stays finished: every pull says that the sequence is
/// exhausted, and bytes that arrive change nothing but what is pending.
pub proof fn lemma_finished_is_exhausted(v: StreamView, chunk: Seq<u8>)
    requires
        v.state == ParseState::Finished,
    ensures
        pull(v) == (v, Step::End),
        feed(v, chunk).state == ParseState::Finished,
        close(v) == (v, Pull::Finished),
{
}

/// Every end is final: a pull that gives the end of the sequence or a fault
/// leaves the parser finished.
pub proof fn lemma_pull_end_is_final(v: StreamView)
    ensures
        pull(v).1 is End || pull(v).1 is Error ==> pull(v).0.state == ParseState::Finished,
    decreases v.pending.len(),
{
    lemma_leading_whitespace(v.pending);
    if step(v).1 is Continue {
        lemma_pull_end_is_final(step(v).0);
    }
}

/// Every end is final: whatever the transport delivers, an answer that ends
/// the sequence, in good order or with a fault, leaves the parser finished.
pub proof fn lemma_end_is_final(v: StreamView, delivery: Delivery)
    ensures
        resume(v, delivery).1 is Finished || resume(v, delivery).1 is Failed ==> resume(
            v,
            delivery,
        ).0.state == ParseState::Finished,
{
    if let Delivery::Chunk(bytes) = delivery {
        lemma_pull_end_is_final(feed(v, bytes));
    }
}

/// A pull never ends on [`Step::Continue`] and never gives bytes back. One
/// that yields an element leaves the parser before a structural character,
/// and has consumed at least one byte unless it began where an element was
/// due.
pub proof fn lemma_pull_shrinks(v: StreamView)
    ensures
        !(pull(v).1 is Continue),
        pull(v).0.pending.len() <= v.pending.len(),
        pull(v).1 is Item ==> pull(v).0.state == ParseState::ReadingChars,
        pull(v).1 is Item && v.state != ParseState::ReadingValue ==> pull(v).0.pending.len()
            < v.pending.len(),
    decreases v.pending.len(),
{
    lemma_leading_whitespace(v.pending);
    if step(v).1 is Continue {
        lemma_pull_shrinks(step(v).0);
    }
}

/// How a run of pulls ends, and what it has yielded.
pub ghost struct Drained {
    /// The view after the last pull.
    pub view: StreamView,
    /// The elements that the pulls before the last one yielded, in order.
    pub items: Seq<Seq<u8>>,
    /// What the last pull gave: anything but an element.
    pub last: Pull,
}

/// Pulls until a pull gives something other than an element.
pub open spec fn drain(v: StreamView) -> Drained
    decreases v.pending.len(), (if v.state == ParseState::ReadingValue { 1int } else { 0int }),
    via drain_decreases
{
    let (w, yielded) = pull(v);
    match yielded {
        Step::Item(frame) => {
            let d = drain(w);
            Drained { view: d.view, items: seq![frame] + d.items, last: d.last }
        },
        _ => Drained { view: w, items: Seq::empty(), last: pull_of(yielded) },
    }
}

#[via_fn]
proof fn drain_decreases(v: StreamView) {
    lemma_pull_shrinks(v);
}

/// The elements of a pull sequence and how it ended: in good order, or with
/// a fault.
pub ghost struct Trace {
    pub items: Seq<Seq<u8>>,
    pub end: Option<Fault>,
}

/// How a sequence ends on a pull that gives no element and asks for none.
pub open spec fn ending(last: Pull) -> Option<Fault> {
    match last {
        Pull::Failed(fault) => Some(fault),
        _ => None,
    }
}

/// The pull sequence of a parser in view `v` over a transport that delivers
/// `chunks` and then ends in good order.
///
/// The consumer pulls until the parser fails, finishes or needs bytes. When
/// it needs bytes, the next chunk is handed in and pulling goes on; when no
/// chunk is left, the end of the transport is reported to the parser, whose
/// answer ends the sequence.
pub open spec fn run(v: StreamView, chunks: Seq<Seq<u8>>) -> Trace
    decreases chunks.len(),
{
    let d = drain(v);
    if d.last is Pending {
        if chunks.len() == 0 {
            Trace { items: d.items, end: ending(close(d.view).1) }
        } else {
            let t = run(feed(d.view, chunks[0]), chunks.skip(1));
            Trace { items: d.items + t.items, end: t.end }
        }
    } else {
        Trace { items: d.items, end: ending(d.last) }
    }
}

/// The rest of a pull sequence after a pull that left the parser in view `v`
/// and gave `last`, over a transport that has `chunks` left to deliver.
pub open spec fn conclude(v: StreamView, last: Pull, chunks: Seq<Seq<u8>>) -> Trace {
    match last {
        Pull::Item(frame) => {
            let t = run(v, chunks);
            Trace { items: seq![frame] + t.items, end: t.end }
        },
        Pull::Pending => {
            if chunks.len() == 0 {
                Trace { items: Seq::empty(), end: ending(close(v).1) }
            } else {
                run(feed(v, chunks[0]), chunks.skip(1))
            }
        },
        _ => Trace { items: Seq::empty(), end: ending(last) },
    }
}

/// A pull sequence is its first pull and what follows from it.
pub proof fn lemma_run_unfolds(v: StreamView, chunks: Seq<Seq<u8>>)
    ensures
        run(v, chunks) == conclude(pull(v).0, pull_of(pull(v).1), chunks),
{
    lemma_pull_shrinks(v);
    let (w, yielded) = pull(v);
    let d = drain(v);
    match yielded {
        Step::Item(frame) => {
            let e = drain(w);
            let t = run(w, chunks);
            if e.last is Pending && chunks.len() > 0 {
                let u = run(feed(e.view, chunks[0]), chunks.skip(1));
                assert(d.items + u.items =~= seq![frame] + (e.items + u.items));
            }
        },
        _ => {
            if d.last is Pending && chunks.len() > 0 {
                let u = run(feed(w, chunks[0]), chunks.skip(1));
                assert(d.items + u.items =~= u.items);
            }
        },
    }
}

/// The byte strings that the vectors of `chunks` hold.
pub open spec fn views(chunks: Seq<Vec<u8>>) -> Seq<Seq<u8>> {
    Seq::new(chunks.len(), |i: int| chunks[i]@)
}

/// All that a pull sequence gave.
#[derive(Debug)]
pub struct Collected {
    /// The elements, by their bytes, in the order in which they came.
    pub items: Vec<Vec<u8>>,
    /// The fault that ended the sequence, if one did.
    pub error: Option<StreamError>,
}

impl View for Collected {
    type V = Trace;

    open spec fn view(&self) -> Trace {
        Trace {
            items: views(self.items@),
            end: match self.error {
                Some(e) => Some(e@),
                None => None,
            },
        }
    }
}

/// Runs a parser over a transport that delivers `chunks` and then ends in
/// good order, and collects what the pull sequence gives.
///
/// `threshold` sets how many digested bytes the parser may hold before it
/// drops them. The result does not depend on it.
pub fn collect(chunks: &Vec<Vec<u8>>, threshold: usize) -> (r: Collected)
    ensures
        r@ == run(initial(), views(chunks@)),
{
    let ghost all = views(chunks@);
    let mut stream = RouteStream::with_threshold(threshold);
    let mut items: Vec<Vec<u8>> = Vec::new();
    let mut next: usize = 0;
    proof {
        lemma_run_unfolds(initial(), all);
        lemma_pull_shrinks(initial());
        assert(all.skip(0) =~= all);
        assert(views(items@) =~= Seq::<Seq<u8>>::empty());
    }
    let mut pulled = stream.poll_next();
    loop
        invariant
            stream.wf(),
            next <= chunks.len(),
            all == views(chunks@),
            pulled@ is Item ==> stream@.state == ParseState::ReadingChars,
            run(initial(), all) == (Trace {
                items: views(items@) + conclude(stream@, pulled@, all.skip(next as int)).items,
                end: conclude(stream@, pulled@, all.skip(next as int)).end,
            }),
        decreases
            chunks.len() - next,
            stream@.pending.len(),
            (if pulled@ is Item { 1int } else { 0int }),
    {
        let ghost left = all.skip(next as int);
        let ghost before = views(items@);
        match pulled {
            Pulled::Item(frame) => {
                proof {
                    lemma_run_unfolds(stream@, left);
                    lemma_pull_shrinks(stream@);
                }
                let ghost tail = conclude(pull(stream@).0, pull_of(pull(stream@).1), left).items;
                items.push(frame);
                assert(views(items@) + tail =~= before + (seq![frame@] + tail));
                pulled = stream.poll_next();
            },
            Pulled::Pending => {
                if next == chunks.len() {
                    let closed = stream.resume(Event::Closed);
                    assert(before + Seq::<Seq<u8>>::empty() =~= before);
                    return match closed {
                        Pulled::Failed(e) => Collected { items, error: Some(e) },
                        _ => Collected { items, error: None },
                    };
                }
                proof {
                    lemma_run_unfolds(feed(stream@, left[0]), left.skip(1));
                    lemma_pull_shrinks(feed(stream@, left[0]));
                    assert(left.skip(1) =~= all.skip(next + 1));
                }
                stream.append(chunks[next].as_slice());
                pulled = stream.poll_next();
                next = next + 1;
            },
            Pulled::Failed(e) => {
                assert(before + Seq::<Seq<u8>>::empty() =~= before);
                return Collected { items, error: Some(e) };
            },
            Pulled::Finished => {
                assert(before + Seq::<Seq<u8>>::empty() =~= before);
                return Collected { items, error: None };
            },
        }
    }
}

} // verus!
