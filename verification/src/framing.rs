//! Incremental line framing of a byte stream: splitting received chunks at
//! newline bytes while carrying a partial trailing line over to the next
//! chunk, so that a line split across two network reads is reassembled
//! exactly as it stood on the wire.

use vstd::prelude::*;

verus! {

/// Frames `s` byte by byte, `pending` being the bytes of the current, not
/// yet terminated line read before `s`. Yields the complete lines in order
/// (without their newline bytes) and the unterminated remainder.
pub open spec fn frame_lines(pending: Seq<u8>, s: Seq<u8>) -> (Seq<Seq<u8>>, Seq<u8>)
    decreases s.len(),
{
    if s.len() == 0 {
        (Seq::empty(), pending)
    } else if s[0] == 10u8 {
        let rest = frame_lines(Seq::empty(), s.skip(1));
        (seq![pending] + rest.0, rest.1)
    } else {
        frame_lines(pending.push(s[0]), s.skip(1))
    }
}

/// Framing a concatenation frames the first part, then the second part from
/// the remainder the first left behind: however a byte sequence is cut into
/// chunks, the lines and the final remainder come out the same.
pub proof fn lemma_frame_lines_append(pending: Seq<u8>, a: Seq<u8>, b: Seq<u8>)
    ensures
        frame_lines(pending, a + b).0 == frame_lines(pending, a).0 + frame_lines(
            frame_lines(pending, a).1,
            b,
        ).0,
        frame_lines(pending, a + b).1 == frame_lines(frame_lines(pending, a).1, b).1,
    decreases a.len(),
{
    if a.len() == 0 {
        assert(a + b =~= b);
        assert(frame_lines(pending, a).0 =~= Seq::<Seq<u8>>::empty());
        assert(Seq::<Seq<u8>>::empty() + frame_lines(pending, b).0 =~= frame_lines(pending, b).0);
    } else {
        assert((a + b).len() > 0);
        assert((a + b)[0] == a[0]);
        assert((a + b).skip(1) =~= a.skip(1) + b);
        if a[0] == 10u8 {
            lemma_frame_lines_append(Seq::empty(), a.skip(1), b);
            let mid = frame_lines(Seq::empty(), a.skip(1));
            let tail = frame_lines(mid.1, b);
            assert(seq![pending] + (mid.0 + tail.0) =~= (seq![pending] + mid.0) + tail.0);
        } else {
            lemma_frame_lines_append(pending.push(a[0]), a.skip(1), b);
        }
    }
}

/// Holds the bytes of the current, not yet newline-terminated line between
/// chunks of a streamed response body.
pub struct LineFramer {
    buf: Vec<u8>,
}

impl View for LineFramer {
    type V = Seq<u8>;

    closed spec fn view(&self) -> Seq<u8> {
        self.buf@
    }
}

impl LineFramer {
    /// A framer with nothing pending.
    pub fn new() -> (r: LineFramer)
        ensures
            r@ == Seq::<u8>::empty(),
    {
        LineFramer { buf: Vec::new() }
    }

    /// Feeds one received chunk: returns every line the chunk completes, in
    /// order, and retains the unterminated remainder for the next chunk.
    pub fn feed(&mut self, chunk: &[u8]) -> (lines: Vec<Vec<u8>>)
        ensures
            lines.deep_view() == frame_lines(old(self)@, chunk@).0,
            final(self)@ == frame_lines(old(self)@, chunk@).1,
    {
        let ghost whole = frame_lines(old(self)@, chunk@);
        let mut lines: Vec<Vec<u8>> = Vec::new();
        let mut i: usize = 0;
        proof {
            assert(chunk@.skip(0) =~= chunk@);
            assert(lines.deep_view() =~= Seq::<Seq<u8>>::empty());
            assert(Seq::<Seq<u8>>::empty() + whole.0 =~= whole.0);
        }
        while i < chunk.len()
            invariant
                0 <= i <= chunk@.len(),
                whole.0 == lines.deep_view() + frame_lines(self@, chunk@.skip(i as int)).0,
                whole.1 == frame_lines(self@, chunk@.skip(i as int)).1,
            decreases chunk@.len() - i,
        {
            let ghost rest = chunk@.skip(i as int);
            proof {
                assert(rest.len() > 0);
                assert(rest[0] == chunk@[i as int]);
                assert(rest.skip(1) =~= chunk@.skip(i as int + 1));
            }
            let b = chunk[i];
            if b == 10u8 {
                let mut line: Vec<u8> = Vec::new();
                core::mem::swap(&mut self.buf, &mut line);
                let ghost prev = lines.deep_view();
                lines.push(line);
                proof {
                    assert(line.deep_view() =~= line@);
                    assert(lines.deep_view() =~= prev.push(line@));
                    assert(lines.deep_view() + frame_lines(self@, chunk@.skip(i as int + 1)).0
                        =~= prev + (seq![line@] + frame_lines(
                        Seq::empty(),
                        rest.skip(1),
                    ).0));
                }
            } else {
                self.buf.push(b);
            }
            i += 1;
        }
        proof {
            assert(chunk@.skip(i as int) =~= Seq::<u8>::empty());
            assert(frame_lines(self@, chunk@.skip(i as int)).0 =~= Seq::<Seq<u8>>::empty());
            assert(lines.deep_view() + Seq::<Seq<u8>>::empty() =~= lines.deep_view());
        }
        lines
    }
}

} // verus!
