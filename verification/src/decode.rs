//! Splitting one logical byte stream, delivered in arbitrarily sized
//! chunks, into newline-delimited records.
//!
//! The buffer consumes bytes strictly in arrival order; a partial record at
//! the end of the buffer is retained across chunk boundaries until a record
//! separator arrives or the stream closes.

use vstd::prelude::*;

verus! {

/// The byte that separates the records of an NDJSON stream.
pub const RECORD_SEPARATOR: u8 = 10;

/// The complete records of `s` (each including its trailing separator),
/// paired with the partial record that follows the last separator.
pub open spec fn scan_lines(s: Seq<u8>) -> (Seq<Seq<u8>>, Seq<u8>)
    decreases s.len(),
{
    if s.len() == 0 {
        (Seq::<Seq<u8>>::empty(), Seq::<u8>::empty())
    } else {
        let prev = scan_lines(s.drop_last());
        if s.last() == RECORD_SEPARATOR {
            (prev.0.push(prev.1.push(RECORD_SEPARATOR)), Seq::<u8>::empty())
        } else {
            (prev.0, prev.1.push(s.last()))
        }
    }
}

/// The partial record left by a scan never contains a separator.
pub proof fn lemma_scan_rest_free(s: Seq<u8>)
    ensures
        forall|i: int|
            0 <= i < scan_lines(s).1.len() ==> scan_lines(s).1[i] != RECORD_SEPARATOR,
    decreases s.len(),
{
    if s.len() > 0 {
        lemma_scan_rest_free(s.drop_last());
        let prev = scan_lines(s.drop_last());
        if s.last() != RECORD_SEPARATOR {
            assert forall|i: int|
                0 <= i < scan_lines(s).1.len() implies scan_lines(s).1[i]
                != RECORD_SEPARATOR by {
                if i < prev.1.len() {
                    assert(scan_lines(s).1[i] == prev.1[i]);
                }
            }
        }
    }
}

/// Scanning a separator-free sequence completes no record and keeps the
/// whole sequence as the partial record.
pub proof fn lemma_scan_free(s: Seq<u8>)
    requires
        forall|i: int| 0 <= i < s.len() ==> s[i] != RECORD_SEPARATOR,
    ensures
        scan_lines(s).0 == Seq::<Seq<u8>>::empty(),
        scan_lines(s).1 == s,
    decreases s.len(),
{
    if s.len() == 0 {
        assert(scan_lines(s).1 =~= s);
    } else {
        lemma_scan_free(s.drop_last());
        assert(scan_lines(s).1 =~= s);
    }
}

/// Scanning a concatenation first yields the records of the left part,
/// then continues scanning the right part from the left part's remainder.
pub proof fn lemma_scan_append(s: Seq<u8>, t: Seq<u8>)
    ensures
        scan_lines(s + t).0 == scan_lines(s).0 + scan_lines(scan_lines(s).1 + t).0,
        scan_lines(s + t).1 == scan_lines(scan_lines(s).1 + t).1,
    decreases t.len(),
{
    let rest = scan_lines(s).1;
    if t.len() == 0 {
        assert(s + t =~= s);
        assert(rest + t =~= rest);
        lemma_scan_rest_free(s);
        lemma_scan_free(rest);
        assert(scan_lines(s).0 + scan_lines(rest).0 =~= scan_lines(s).0);
    } else {
        lemma_scan_append(s, t.drop_last());
        let b = t.last();
        assert(s + t =~= (s + t.drop_last()).push(b));
        assert(rest + t =~= (rest + t.drop_last()).push(b));
        assert(((s + t.drop_last()).push(b)).drop_last() =~= s + t.drop_last());
        assert(((rest + t.drop_last()).push(b)).drop_last() =~= rest + t.drop_last());
        if b == RECORD_SEPARATOR {
            assert(scan_lines(s + t).0 =~= scan_lines(s).0 + scan_lines(rest + t).0);
        }
    }
}

/// One payload, as the concatenation of its chunks.
pub open spec fn concat_of(chunks: Seq<Seq<u8>>) -> Seq<u8>
    decreases chunks.len(),
{
    if chunks.len() == 0 {
        Seq::<u8>::empty()
    } else {
        concat_of(chunks.drop_last()) + chunks.last()
    }
}

/// The scanner run chunk by chunk: the records emitted over all chunks so
/// far, and the partial record buffered after them.
pub open spec fn scan_feed(chunks: Seq<Seq<u8>>) -> (Seq<Seq<u8>>, Seq<u8>)
    decreases chunks.len(),
{
    if chunks.len() == 0 {
        (Seq::<Seq<u8>>::empty(), Seq::<u8>::empty())
    } else {
        let prev = scan_feed(chunks.drop_last());
        let step = scan_lines(prev.1 + chunks.last());
        (prev.0 + step.0, step.1)
    }
}

/// Chunking invariance: feeding a payload chunk by chunk emits exactly
/// the records of the whole payload, whatever the chunk boundaries. This
/// is [`StreamBuffer::feed`]'s behaviour: each call scans the buffered
/// partial record extended by the arrived chunk.
pub proof fn lemma_scan_feed(chunks: Seq<Seq<u8>>)
    ensures
        scan_feed(chunks).0 == scan_lines(concat_of(chunks)).0,
        scan_feed(chunks).1 == scan_lines(concat_of(chunks)).1,
    decreases chunks.len(),
{
    if chunks.len() > 0 {
        lemma_scan_feed(chunks.drop_last());
        lemma_scan_append(concat_of(chunks.drop_last()), chunks.last());
    }
}

/// Chunking invariance, stated over two chunkings: splitting the same
/// payload at any two sets of boundaries leads the scanner to the same
/// records and the same buffered remainder.
pub proof fn lemma_chunking_invariance(a: Seq<Seq<u8>>, b: Seq<Seq<u8>>)
    requires
        concat_of(a) == concat_of(b),
    ensures
        scan_feed(a).0 == scan_feed(b).0,
        scan_feed(a).1 == scan_feed(b).1,
{
    lemma_scan_feed(a);
    lemma_scan_feed(b);
}

/// The byte accumulator of one logical stream. Bytes go in as they arrive;
/// complete records come out in order; a partial record stays buffered.
pub struct StreamBuffer {
    buf: Vec<u8>,
    fed: Ghost<Seq<u8>>,
}

impl StreamBuffer {
    /// All bytes this buffer was ever fed, in arrival order.
    pub closed spec fn fed(self) -> Seq<u8> {
        self.fed@
    }

    /// The buffer holds exactly the partial record of everything fed.
    pub closed spec fn wf(self) -> bool {
        self.buf@ == scan_lines(self.fed@).1
    }

    /// Creates an empty buffer for a fresh stream.
    pub fn new() -> (r: Self)
        ensures
            r.wf(),
            r.fed() == Seq::<u8>::empty(),
    {
        StreamBuffer { buf: Vec::new(), fed: Ghost(Seq::empty()) }
    }

    /// Appends one arrived chunk and returns the records it completed, in
    /// order. The records emitted over the whole stream so far are exactly
    /// the complete records of the concatenation of all bytes fed.
    pub fn feed(&mut self, chunk: &[u8]) -> (r: Vec<Vec<u8>>)
        requires
            old(self).wf(),
        ensures
            final(self).wf(),
            final(self).fed() == old(self).fed() + chunk@,
            scan_lines(final(self).fed()).0 == scan_lines(old(self).fed()).0 + r.deep_view(),
    {
        let mut out: Vec<Vec<u8>> = Vec::new();
        let ghost fed0 = self.fed@;
        for k in 0..chunk.len()
            invariant
                self.wf(),
                self.fed@ == fed0 + chunk@.subrange(0, k as int),
                scan_lines(self.fed@).0 == scan_lines(fed0).0 + out.deep_view(),
        {
            let ghost pre = self.fed@;
            let ghost out_pre = out.deep_view();
            let b = chunk[k];
            self.buf.push(b);
            proof {
                self.fed@ = self.fed@.push(b);
                assert(self.fed@.drop_last() =~= pre);
                assert(self.fed@ =~= fed0 + chunk@.subrange(0, k + 1));
            }
            if b == RECORD_SEPARATOR {
                let mut line: Vec<u8> = Vec::new();
                core::mem::swap(&mut line, &mut self.buf);
                out.push(line);
                proof {
                    assert(out.deep_view() =~~= out_pre.push(scan_lines(pre).1.push(
                        RECORD_SEPARATOR,
                    )));
                    assert(scan_lines(self.fed@).0 =~~= scan_lines(fed0).0 + out.deep_view());
                }
            }
        }
        proof {
            assert(fed0 + chunk@.subrange(0, chunk@.len() as int) =~= fed0 + chunk@);
        }
        out
    }

    /// Ends the stream: hands back the trailing partial record, if any
    /// bytes remain after the last separator.
    pub fn finish(self) -> (r: Option<Vec<u8>>)
        requires
            self.wf(),
        ensures
            match r {
                Some(l) => l@ == scan_lines(self.fed()).1 && l@.len() > 0,
                None => scan_lines(self.fed()).1.len() == 0,
            },
    {
        if self.buf.len() == 0 {
            None
        } else {
            Some(self.buf)
        }
    }
}

} // verus!
