//! Cutting a byte stream into lines, whatever the sizes of the pieces in
//! which it arrives.
use vstd::prelude::*;

verus! {

/// The line terminator.
pub const LINE_FEED: u8 = 10;

/// A carriage return, dropped where it ends a terminated line.
pub const CARRIAGE_RETURN: u8 = 13;

/// A terminated line without its carriage return, if it ends in one.
pub open spec fn trim_cr(line: Seq<u8>) -> Seq<u8> {
    if line.len() > 0 && line.last() == CARRIAGE_RETURN {
        line.drop_last()
    } else {
        line
    }
}

/// Reading `s` after an unterminated piece `tail`: the lines that this
/// completes, in order, and the unterminated piece that is left.
pub open spec fn frame_from(tail: Seq<u8>, s: Seq<u8>) -> (Seq<Seq<u8>>, Seq<u8>)
    decreases s.len(),
{
    if s.len() == 0 {
        (Seq::empty(), tail)
    } else {
        let prev = frame_from(tail, s.drop_last());
        if s.last() == LINE_FEED {
            (prev.0.push(trim_cr(prev.1)), Seq::empty())
        } else {
            (prev.0, prev.1.push(s.last()))
        }
    }
}

/// The lines completed by reading `s` after `tail`.
pub open spec fn lines_from(tail: Seq<u8>, s: Seq<u8>) -> Seq<Seq<u8>> {
    frame_from(tail, s).0
}

/// The unterminated piece left after reading `s` after `tail`.
pub open spec fn rest_from(tail: Seq<u8>, s: Seq<u8>) -> Seq<u8> {
    frame_from(tail, s).1
}

/// Reading `a` and then `b` completes the same lines, and leaves the same
/// piece, as reading `a` and `b` joined: where a stream is cut into pieces
/// does not change the lines read from it.
pub proof fn lemma_frame_split(tail: Seq<u8>, a: Seq<u8>, b: Seq<u8>)
    ensures
        lines_from(tail, a + b) == lines_from(tail, a) + lines_from(rest_from(tail, a), b),
        rest_from(tail, a + b) == rest_from(rest_from(tail, a), b),
    decreases b.len(),
{
    if b.len() == 0 {
        assert(a + b =~= a);
        assert(lines_from(tail, a) + Seq::<Seq<u8>>::empty() =~= lines_from(tail, a));
    } else {
        lemma_frame_split(tail, a, b.drop_last());
        assert((a + b).drop_last() =~= a + b.drop_last());
        assert((a + b).last() == b.last());
        let mid = rest_from(tail, a);
        let pa = frame_from(tail, a);
        let pb = frame_from(mid, b.drop_last());
        if b.last() == LINE_FEED {
            assert((pa.0 + pb.0).push(trim_cr(pb.1)) =~= pa.0 + pb.0.push(trim_cr(pb.1)));
        }
    }
}

/// Reads `chunk` after the unterminated piece held in `carry`: returns the
/// lines that this completes and leaves the new unterminated piece in `carry`.
pub fn split_lines(carry: &mut Vec<u8>, chunk: &[u8]) -> (lines: Vec<Vec<u8>>)
    ensures
        lines@.len() == lines_from(old(carry)@, chunk@).len(),
        forall|i: int|
            0 <= i < lines@.len() ==> (#[trigger] lines@[i])@ == lines_from(old(carry)@, chunk@)[i],
        final(carry)@ == rest_from(old(carry)@, chunk@),
{
    let ghost start = carry@;
    let mut lines: Vec<Vec<u8>> = Vec::new();
    let mut i: usize = 0;
    while i < chunk.len()
        invariant
            i <= chunk@.len(),
            lines@.len() == lines_from(start, chunk@.subrange(0, i as int)).len(),
            forall|k: int|
                0 <= k < lines@.len() ==> (#[trigger] lines@[k])@ == lines_from(
                    start,
                    chunk@.subrange(0, i as int),
                )[k],
            carry@ == rest_from(start, chunk@.subrange(0, i as int)),
        decreases chunk@.len() - i,
    {
        let ghost before = chunk@.subrange(0, i as int);
        let b = chunk[i];
        assert(chunk@.subrange(0, i + 1).drop_last() =~= before);
        if b == LINE_FEED {
            let mut line: Vec<u8> = Vec::new();
            core::mem::swap(&mut line, carry);
            let n = line.len();
            if n > 0 && line[n - 1] == CARRIAGE_RETURN {
                line.pop();
            }
            assert(line@ =~= trim_cr(rest_from(start, before)));
            lines.push(line);
            assert(carry@ =~= Seq::<u8>::empty());
        } else {
            carry.push(b);
        }
        i = i + 1;
    }
    assert(chunk@.subrange(0, chunk@.len() as int) =~= chunk@);
    lines
}

} // verus!
