//! What holds of whole decodes: the body's cutting into chunks does not
//! matter, the text is the reported pieces in order, and nothing follows the
//! terminal marker.
use vstd::prelude::*;

use crate::decoder::{
    absorb, deltas, event_text, finish, outcome, run_lines, step, streaming, with_carry, DecoderView,
    ParsedView, StatusView,
};
use crate::frame::{lemma_frame_split, lines_from, rest_from};

verus! {

/// The state after the chunks `chunks`, taken in order.
pub open spec fn absorb_all(
    s: DecoderView,
    chunks: Seq<Seq<u8>>,
    p: spec_fn(Seq<u8>) -> ParsedView,
) -> DecoderView
    decreases chunks.len(),
{
    if chunks.len() == 0 {
        s
    } else {
        absorb_all(absorb(s, chunks[0], p), chunks.drop_first(), p)
    }
}

/// Two states that differ at most in an unterminated piece that is no
/// longer read.
pub open spec fn same_progress(x: DecoderView, y: DecoderView) -> bool {
    &&& x.status == y.status
    &&& x.reply == y.reply
    &&& x.fragment == y.fragment
    &&& streaming(x) ==> x.carry == y.carry
}

proof fn lemma_step_carry(s: DecoderView, c: Seq<u8>, line: Seq<u8>, x: ParsedView)
    ensures
        step(with_carry(s, c), line, x) == with_carry(step(s, line, x), c),
{
}

proof fn lemma_run_carry(
    s: DecoderView,
    c: Seq<u8>,
    lines: Seq<Seq<u8>>,
    p: spec_fn(Seq<u8>) -> ParsedView,
)
    ensures
        run_lines(with_carry(s, c), lines, p) == with_carry(run_lines(s, lines, p), c),
    decreases lines.len(),
{
    if lines.len() > 0 {
        lemma_run_carry(s, c, lines.drop_last(), p);
        let prev = run_lines(s, lines.drop_last(), p);
        lemma_step_carry(prev, c, lines.last(), p(event_text(prev.fragment, lines.last())));
    }
}

proof fn lemma_run_concat(
    s: DecoderView,
    l1: Seq<Seq<u8>>,
    l2: Seq<Seq<u8>>,
    p: spec_fn(Seq<u8>) -> ParsedView,
)
    ensures
        run_lines(s, l1 + l2, p) == run_lines(run_lines(s, l1, p), l2, p),
    decreases l2.len(),
{
    if l2.len() == 0 {
        assert(l1 + l2 =~= l1);
    } else {
        lemma_run_concat(s, l1, l2.drop_last(), p);
        assert((l1 + l2).drop_last() =~= l1 + l2.drop_last());
        assert((l1 + l2).last() == l2.last());
    }
}

proof fn lemma_run_stopped(s: DecoderView, lines: Seq<Seq<u8>>, p: spec_fn(Seq<u8>) -> ParsedView)
    requires
        !streaming(s),
    ensures
        run_lines(s, lines, p) == s,
    decreases lines.len(),
{
    if lines.len() > 0 {
        lemma_run_stopped(s, lines.drop_last(), p);
    }
}

/// Once the terminal marker has been read, no line, chunk or end of input
/// changes the state: nothing after it is consumed or affects the result.
pub proof fn done_is_final(
    s: DecoderView,
    line: Seq<u8>,
    x: ParsedView,
    chunk: Seq<u8>,
    lines: Seq<Seq<u8>>,
    p: spec_fn(Seq<u8>) -> ParsedView,
)
    requires
        s.status == StatusView::Done,
    ensures
        step(s, line, x) == s,
        run_lines(s, lines, p) == s,
        absorb(s, chunk, p) == s,
        finish(s, p) == s,
{
    lemma_run_stopped(s, lines, p);
}

/// Reading chunk `a` and then chunk `b` leads where reading them joined
/// into one chunk does, but for an unterminated piece that is no longer read.
pub proof fn two_chunks_as_one(
    s: DecoderView,
    a: Seq<u8>,
    b: Seq<u8>,
    p: spec_fn(Seq<u8>) -> ParsedView,
)
    ensures
        same_progress(absorb(absorb(s, a, p), b, p), absorb(s, a + b, p)),
        outcome(finish(absorb(absorb(s, a, p), b, p), p)) == outcome(finish(absorb(s, a + b, p), p)),
{
    if streaming(s) {
        let ra = rest_from(s.carry, a);
        let la = lines_from(s.carry, a);
        let lb = lines_from(ra, b);
        let rab = rest_from(s.carry, a + b);
        lemma_frame_split(s.carry, a, b);
        lemma_run_carry(s, ra, la, p);
        lemma_run_carry(s, rab, la + lb, p);
        lemma_run_concat(s, la, lb, p);
        let sa = absorb(s, a, p);
        let mid = run_lines(s, la, p);
        assert(sa == with_carry(mid, ra));
        if streaming(sa) {
            lemma_run_carry(mid, rest_from(ra, b), lb, p);
            assert(with_carry(sa, rest_from(ra, b)) == with_carry(mid, rest_from(ra, b)));
        } else {
            lemma_run_stopped(mid, lb, p);
        }
    }
    lemma_same_progress_outcome(absorb(absorb(s, a, p), b, p), absorb(s, a + b, p), p);
}

proof fn lemma_same_progress_outcome(x: DecoderView, y: DecoderView, p: spec_fn(Seq<u8>) -> ParsedView)
    requires
        same_progress(x, y),
    ensures
        outcome(finish(x, p)) == outcome(finish(y, p)),
{
    if streaming(x) {
        assert(x == y);
    }
}

/// Cutting a body into chunks at any places gives the result of reading it
/// as one chunk: the same text, or the same error.
pub proof fn chunking_does_not_matter(
    s: DecoderView,
    chunks: Seq<Seq<u8>>,
    p: spec_fn(Seq<u8>) -> ParsedView,
)
    ensures
        same_progress(absorb_all(s, chunks, p), absorb(s, chunks.flatten(), p)),
        outcome(finish(absorb_all(s, chunks, p), p)) == outcome(finish(absorb(s, chunks.flatten(), p), p)),
    decreases chunks.len(),
{
    if chunks.len() == 0 {
        assert(chunks.flatten() =~= Seq::<u8>::empty());
        if streaming(s) {
            assert(lines_from(s.carry, Seq::<u8>::empty()) =~= Seq::<Seq<u8>>::empty());
            assert(with_carry(s, s.carry) == s);
        }
    } else {
        let s0 = absorb(s, chunks[0], p);
        let rest = chunks.drop_first();
        chunking_does_not_matter(s0, rest, p);
        assert(chunks.flatten() == chunks[0] + rest.flatten());
        two_chunks_as_one(s, chunks[0], rest.flatten(), p);
        lemma_same_progress_trans(
            absorb_all(s0, rest, p),
            absorb(s0, rest.flatten(), p),
            absorb(s, chunks.flatten(), p),
        );
    }
    lemma_same_progress_outcome(absorb_all(s, chunks, p), absorb(s, chunks.flatten(), p), p);
}

proof fn lemma_same_progress_trans(x: DecoderView, y: DecoderView, z: DecoderView)
    requires
        same_progress(x, y),
        same_progress(y, z),
    ensures
        same_progress(x, z),
{
}

/// The text accumulated by a decode that has not failed is the text it
/// started with followed by the reported pieces, in the order of their
/// lines; a failed decode keeps no text.
pub proof fn deltas_in_order(s: DecoderView, lines: Seq<Seq<u8>>, p: spec_fn(Seq<u8>) -> ParsedView)
    ensures
        !(run_lines(s, lines, p).status is Failed) ==> run_lines(s, lines, p).reply == s.reply
            + deltas(s, lines, p),
        run_lines(s, lines, p).status is Failed && !(s.status is Failed) ==> run_lines(
            s,
            lines,
            p,
        ).reply.len() == 0,
    decreases lines.len(),
{
    if lines.len() == 0 {
        assert(s.reply + Seq::<char>::empty() =~= s.reply);
    } else {
        deltas_in_order(s, lines.drop_last(), p);
        let prev = run_lines(s, lines.drop_last(), p);
        if !(prev.status is Failed) {
            assert(s.reply + deltas(s, lines, p) =~= (s.reply + deltas(s, lines.drop_last(), p))
                + (deltas(s, lines, p).subrange(
                deltas(s, lines.drop_last(), p).len() as int,
                deltas(s, lines, p).len() as int,
            )));
        }
    }
}

} // verus!
