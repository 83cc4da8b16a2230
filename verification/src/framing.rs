//! Line framing of the helper's output stream.
//!
//! The helper writes one message per line. Its output reaches the host in
//! chunks whose boundaries are unrelated to line boundaries, so complete lines
//! are cut out of an accumulation buffer and the unfinished tail is kept for
//! the next chunk.

use vstd::prelude::*;

verus! {

/// The byte that terminates a line.
pub const LINE_BREAK: u8 = 10;

/// Position of the first line break in `s`, or `s.len()` when there is none.
pub open spec fn first_break(s: Seq<u8>) -> int
    decreases s.len(),
{
    if s.len() == 0 {
        0
    } else if s[0] == LINE_BREAK {
        0
    } else {
        1 + first_break(s.drop_first())
    }
}

/// Whether `s` holds at least one line break.
pub open spec fn has_break(s: Seq<u8>) -> bool {
    first_break(s) < s.len()
}

/// The complete lines of `s` in order, each without its line break.
pub open spec fn complete_lines(s: Seq<u8>) -> Seq<Seq<u8>>
    decreases s.len(),
{
    let k = first_break(s);
    if 0 <= k < s.len() {
        seq![s.subrange(0, k)] + complete_lines(s.subrange(k + 1, s.len() as int))
    } else {
        Seq::empty()
    }
}

/// What follows the last line break of `s`: the line that is not finished yet.
pub open spec fn unfinished(s: Seq<u8>) -> Seq<u8>
    decreases s.len(),
{
    let k = first_break(s);
    if 0 <= k < s.len() {
        unfinished(s.subrange(k + 1, s.len() as int))
    } else {
        s
    }
}

/// All chunks of `chunks` joined in order.
pub open spec fn joined(chunks: Seq<Seq<u8>>) -> Seq<u8>
    decreases chunks.len(),
{
    if chunks.len() == 0 {
        Seq::empty()
    } else {
        joined(chunks.drop_last()) + chunks.last()
    }
}

/// The lines that come out when `chunks` are fed one after another into a
/// buffer that starts as `pending`.
pub open spec fn lines_fed(pending: Seq<u8>, chunks: Seq<Seq<u8>>) -> Seq<Seq<u8>>
    decreases chunks.len(),
{
    if chunks.len() == 0 {
        Seq::empty()
    } else {
        lines_fed(pending, chunks.drop_last()) + complete_lines(
            pending_fed(pending, chunks.drop_last()) + chunks.last(),
        )
    }
}

/// The buffer that is left when `chunks` were fed one after another into a
/// buffer that started as `pending`.
pub open spec fn pending_fed(pending: Seq<u8>, chunks: Seq<Seq<u8>>) -> Seq<u8>
    decreases chunks.len(),
{
    if chunks.len() == 0 {
        pending
    } else {
        unfinished(pending_fed(pending, chunks.drop_last()) + chunks.last())
    }
}

pub proof fn lemma_first_break(s: Seq<u8>)
    ensures
        0 <= first_break(s) <= s.len(),
        forall|i: int| 0 <= i < first_break(s) ==> s[i] != LINE_BREAK,
        first_break(s) < s.len() ==> s[first_break(s)] == LINE_BREAK,
    decreases s.len(),
{
    if s.len() > 0 && s[0] != LINE_BREAK {
        let t = s.drop_first();
        lemma_first_break(t);
        assert forall|i: int| 0 <= i < first_break(s) implies s[i] != LINE_BREAK by {
            if i > 0 {
                assert(s[i] == t[i - 1]);
            }
        }
    }
}

/// A position that holds a line break, with none before it, is the first
/// break.
pub proof fn lemma_first_break_at(s: Seq<u8>, k: int)
    requires
        0 <= k <= s.len(),
        forall|i: int| 0 <= i < k ==> s[i] != LINE_BREAK,
        k < s.len() ==> s[k] == LINE_BREAK,
    ensures
        first_break(s) == k,
{
    lemma_first_break(s);
    let f = first_break(s);
    if f < k {
        assert(s[f] == LINE_BREAK);
    } else if f > k {
        assert(s[k] != LINE_BREAK);
    }
}

/// A buffer without a line break yields no line and stays as it is.
pub proof fn lemma_no_break(s: Seq<u8>)
    requires
        !has_break(s),
    ensures
        complete_lines(s) == Seq::<Seq<u8>>::empty(),
        unfinished(s) == s,
{
    lemma_first_break(s);
}

/// Splitting a buffer in two anywhere changes neither the lines nor the
/// remainder: the lines of `a + b` are those of `a` followed by those of what
/// `a` left over joined with `b`.
pub proof fn lemma_split_anywhere(a: Seq<u8>, b: Seq<u8>)
    ensures
        complete_lines(a + b) == complete_lines(a) + complete_lines(unfinished(a) + b),
        unfinished(a + b) == unfinished(unfinished(a) + b),
    decreases a.len(),
{
    lemma_first_break(a);
    let k = first_break(a);
    if k < a.len() {
        let ab = a + b;
        lemma_first_break_at(ab, k);
        let tail = a.subrange(k + 1, a.len() as int);
        assert(ab.subrange(k + 1, ab.len() as int) == tail + b);
        assert(ab.subrange(0, k) == a.subrange(0, k));
        lemma_split_anywhere(tail, b);
        assert(complete_lines(ab) == seq![a.subrange(0, k)] + complete_lines(tail + b));
        assert(complete_lines(a) == seq![a.subrange(0, k)] + complete_lines(tail));
        assert(seq![a.subrange(0, k)] + (complete_lines(tail) + complete_lines(
            unfinished(tail) + b,
        )) == (seq![a.subrange(0, k)] + complete_lines(tail)) + complete_lines(
            unfinished(tail) + b,
        ));
    } else {
        assert(complete_lines(a) + complete_lines(a + b) == complete_lines(a + b));
    }
}

/// Feeding a stream chunk by chunk yields exactly the lines, in order, that
/// decoding the joined stream in one pass yields, and leaves the same
/// unfinished tail, however the stream was cut into chunks.
pub proof fn lemma_chunking_is_invisible(pending: Seq<u8>, chunks: Seq<Seq<u8>>)
    requires
        !has_break(pending),
    ensures
        lines_fed(pending, chunks) == complete_lines(pending + joined(chunks)),
        pending_fed(pending, chunks) == unfinished(pending + joined(chunks)),
    decreases chunks.len(),
{
    if chunks.len() == 0 {
        assert(pending + joined(chunks) == pending);
        lemma_no_break(pending);
    } else {
        let front = chunks.drop_last();
        let last = chunks.last();
        lemma_chunking_is_invisible(pending, front);
        lemma_split_anywhere(pending + joined(front), last);
        assert(pending + joined(chunks) == (pending + joined(front)) + last);
    }
}

/// The accumulation buffer of one output stream.
pub struct LineDecoder {
    pending: Vec<u8>,
}

impl View for LineDecoder {
    type V = Seq<u8>;

    /// The bytes of the line that has not been terminated yet.
    closed spec fn view(&self) -> Seq<u8> {
        self.pending@
    }
}

/// The byte sequences that a vector of lines stands for.
pub open spec fn line_views(lines: Seq<Vec<u8>>) -> Seq<Seq<u8>> {
    Seq::new(lines.len(), |i: int| lines[i]@)
}

impl LineDecoder {
    #[verifier::type_invariant]
    spec fn no_break_pending(&self) -> bool {
        !has_break(self.pending@)
    }

    /// An empty buffer.
    pub fn new() -> (r: Self)
        ensures
            r@ == Seq::<u8>::empty(),
    {
        LineDecoder { pending: Vec::new() }
    }

    /// Number of buffered bytes.
    pub fn pending_len(&self) -> (n: usize)
        ensures
            n == self@.len(),
    {
        self.pending.len()
    }

    /// Appends `chunk` to the buffer and takes out every line that is now
    /// complete, in stream order and without its line break.
    pub fn feed(&mut self, chunk: &[u8]) -> (lines: Vec<Vec<u8>>)
        ensures
            line_views(lines@) == complete_lines(old(self)@ + chunk@),
            final(self)@ == unfinished(old(self)@ + chunk@),
    {
        proof {
            use_type_invariant(&*self);
        }
        let ghost start = self.pending@;
        let mut lines: Vec<Vec<u8>> = Vec::new();
        let mut current: Vec<u8> = Vec::new();
        std::mem::swap(&mut current, &mut self.pending);
        let mut i: usize = 0;
        proof {
            assert(chunk@.subrange(0, chunk@.len() as int) == chunk@);
            assert(line_views(lines@) == Seq::<Seq<u8>>::empty());
            assert(line_views(lines@) + complete_lines(start + chunk@) == complete_lines(
                start + chunk@,
            ));
            lemma_first_break_at(self.pending@, 0);
        }
        while i < chunk.len()
            invariant
                0 <= i <= chunk.len(),
                !has_break(current@),
                self.pending@.len() == 0,
                line_views(lines@) + complete_lines(
                    current@ + chunk@.subrange(i as int, chunk@.len() as int),
                ) == complete_lines(start + chunk@),
                unfinished(current@ + chunk@.subrange(i as int, chunk@.len() as int))
                    == unfinished(start + chunk@),
            decreases chunk.len() - i,
        {
            let b = chunk[i];
            let ghost rest = chunk@.subrange(i as int, chunk@.len() as int);
            let ghost next = chunk@.subrange(i + 1, chunk@.len() as int);
            let ghost whole = current@ + rest;
            proof {
                lemma_first_break(current@);
                assert(rest == seq![b] + next);
            }
            if b == LINE_BREAK {
                proof {
                    lemma_first_break_at(whole, current@.len() as int);
                    assert(whole.subrange(0, current@.len() as int) == current@);
                    assert(whole.subrange(current@.len() as int + 1, whole.len() as int) == next);
                    assert(Seq::<u8>::empty() + next == next);
                    assert(line_views(lines@.push(current)) == line_views(lines@) + seq![
                        current@,
                    ]);
                    assert((line_views(lines@) + seq![current@]) + complete_lines(next)
                        == line_views(lines@) + (seq![current@] + complete_lines(next)));
                }
                let mut done: Vec<u8> = Vec::new();
                std::mem::swap(&mut done, &mut current);
                lines.push(done);
                proof {
                    lemma_first_break_at(current@, 0);
                }
            } else {
                current.push(b);
                proof {
                    assert(current@ + next == whole);
                    let prev = current@.drop_last();
                    assert forall|j: int| 0 <= j < current@.len() implies current@[j]
                        != LINE_BREAK by {
                        if j < prev.len() {
                            assert(current@[j] == prev[j]);
                        }
                    }
                    lemma_first_break_at(current@, current@.len() as int);
                }
            }
            i += 1;
        }
        proof {
            assert(chunk@.subrange(i as int, chunk@.len() as int) == Seq::<u8>::empty());
            assert(current@ + Seq::<u8>::empty() == current@);
            lemma_no_break(current@);
            assert(line_views(lines@) + Seq::<Seq<u8>>::empty() == line_views(lines@));
        }
        self.pending = current;
        lines
    }
}

} // verus!
