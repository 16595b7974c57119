//! The model-pull progress stream: the decoder that turns the engine's
//! NDJSON pull response into ordered progress events.

use vstd::prelude::*;
use vstd::string::StringExecFns;
use crate::decode::{scan_lines, StreamBuffer};

verus! {

/// The guard run before a pull request is sent: the engine must currently
/// be answering; otherwise the pull is refused with a retry-actionable
/// message.
pub fn pull_gate(engine_running: bool) -> (r: Result<(), String>)
    ensures
        r is Ok <==> engine_running,
        r matches Err(m) ==> m@ == "AI engine is not running. Please restart the app."@,
{
    if engine_running {
        Ok(())
    } else {
        Err(String::from_str("AI engine is not running. Please restart the app."))
    }
}

/// One decoded progress record of a model pull.
#[derive(Debug)]
pub struct PullProgress {
    pub status: String,
    pub digest: Option<String>,
    pub total: Option<u64>,
    pub completed: Option<u64>,
}

/// The mathematical value of a [`PullProgress`].
pub struct PullProgressView {
    pub status: Seq<char>,
    pub digest: Option<Seq<char>>,
    pub total: Option<u64>,
    pub completed: Option<u64>,
}

impl View for PullProgress {
    type V = PullProgressView;

    open spec fn view(&self) -> PullProgressView {
        PullProgressView {
            status: self.status@,
            digest: self.digest.deep_view(),
            total: self.total,
            completed: self.completed,
        }
    }
}

impl DeepView for PullProgress {
    type V = PullProgressView;

    open spec fn deep_view(&self) -> PullProgressView {
        self.view()
    }
}

/// What parsing one NDJSON record of the pull-progress schema yields:
/// status, optional digest, optional total and completed byte counts, or
/// nothing when the record is not a pull record (a status is required).
/// The result depends on the record's bytes alone.
pub uninterp spec fn pull_parse(line: Seq<u8>) -> Option<
    (Seq<char>, Option<Seq<char>>, Option<u64>, Option<u64>),
>;

/// The event a pull record's parse outcome stands for.
pub open spec fn pull_event_of(
    p: (Seq<char>, Option<Seq<char>>, Option<u64>, Option<u64>),
) -> PullProgressView {
    PullProgressView { status: p.0, digest: p.1, total: p.2, completed: p.3 }
}

/// Relies on serde_json::from_slice / serde_json::Value: parses one NDJSON
/// record of the pull-progress schema
/// `{"status":...,"digest":...,"total":...,"completed":...}`; yields
/// nothing when the record lacks a string status.
#[verifier::external_body]
fn parse_pull_line(line: &Vec<u8>) -> (r: Option<PullProgress>)
    ensures
        r matches Some(p) ==> pull_parse(line@) == Some(
            (p.status@, p.digest.deep_view(), p.total, p.completed),
        ),
        r is None ==> pull_parse(line@) is None,
{
    let v: serde_json::Value = match serde_json::from_slice(line) {
        Ok(v) => v,
        Err(_) => return None,
    };
    let status = match v.get("status").and_then(|s| s.as_str()) {
        Some(s) => s.to_string(),
        None => return None,
    };
    let digest = v.get("digest").and_then(|d| d.as_str()).map(|s| s.to_string());
    let total = v.get("total").and_then(|t| t.as_u64());
    let completed = v.get("completed").and_then(|c| c.as_u64());
    Some(PullProgress { status, digest, total, completed })
}

/// The progress events that the pull schema yields for `lines`, in order:
/// one event per record that parses, none for a record that does not
/// (skip-on-parse-error).
pub open spec fn pull_events(lines: Seq<Seq<u8>>) -> Seq<PullProgressView>
    decreases lines.len(),
{
    if lines.len() == 0 {
        Seq::<PullProgressView>::empty()
    } else {
        pull_events(lines.drop_last()) + match pull_parse(lines.last()) {
            Some(p) => seq![pull_event_of(p)],
            None => Seq::<PullProgressView>::empty(),
        }
    }
}

/// Malformed-line resilience: a record that does not parse contributes no
/// event; the stream yields exactly the events of the records around it,
/// in order (skip-on-parse-error).
pub proof fn lemma_pull_skip_on_parse_error(
    before: Seq<Seq<u8>>,
    bad: Seq<u8>,
    after: Seq<Seq<u8>>,
)
    requires
        pull_parse(bad) is None,
    ensures
        pull_events(before + seq![bad] + after) == pull_events(before + after),
    decreases after.len(),
{
    if after.len() == 0 {
        assert(before + seq![bad] + after =~= before.push(bad));
        assert((before.push(bad)).drop_last() =~= before);
        assert(before + after =~= before);
        assert(pull_events(before.push(bad)) =~= pull_events(before));
    } else {
        lemma_pull_skip_on_parse_error(before, bad, after.drop_last());
        let l = after.last();
        assert(before + seq![bad] + after =~= (before + seq![bad] + after.drop_last()).push(l));
        assert(before + after =~= (before + after.drop_last()).push(l));
        assert(((before + seq![bad] + after.drop_last()).push(l)).drop_last() =~= before
            + seq![bad] + after.drop_last());
        assert(((before + after.drop_last()).push(l)).drop_last() =~= before + after.drop_last());
    }
}

/// The event of the trailing partial record at end of stream, if that
/// record parses.
pub open spec fn pull_tail(rem: Seq<u8>) -> Seq<PullProgressView> {
    if rem.len() > 0 {
        match pull_parse(rem) {
            Some(p) => seq![pull_event_of(p)],
            None => Seq::<PullProgressView>::empty(),
        }
    } else {
        Seq::<PullProgressView>::empty()
    }
}

/// Decodes one model-pull response stream: buffers arbitrarily chunked
/// bytes, splits them into NDJSON records, and turns each record that
/// parses into a [`PullProgress`], in record order.
pub struct PullDecoder {
    buffer: StreamBuffer,
    events: Ghost<Seq<PullProgressView>>,
}

impl PullDecoder {
    /// All bytes this decoder was ever fed, in arrival order.
    pub closed spec fn fed(self) -> Seq<u8> {
        self.buffer.fed()
    }

    /// All events emitted so far.
    pub closed spec fn events(self) -> Seq<PullProgressView> {
        self.events@
    }

    pub closed spec fn wf(self) -> bool {
        &&& self.buffer.wf()
        &&& self.events@ == pull_events(scan_lines(self.buffer.fed()).0)
    }

    /// Creates a decoder for a fresh pull stream.
    pub fn new() -> (r: Self)
        ensures
            r.wf(),
            r.fed() == Seq::<u8>::empty(),
            r.events() == Seq::<PullProgressView>::empty(),
    {
        PullDecoder { buffer: StreamBuffer::new(), events: Ghost(Seq::empty()) }
    }

    /// Feeds one arrived chunk and returns the events it completed, in
    /// order. The events emitted over the whole stream so far are exactly
    /// those of the records of the concatenation of all bytes fed, however
    /// that payload was chunked.
    pub fn feed(&mut self, chunk: &[u8]) -> (r: Vec<PullProgress>)
        requires
            old(self).wf(),
        ensures
            final(self).wf(),
            final(self).fed() == old(self).fed() + chunk@,
            final(self).events() == old(self).events() + r.deep_view(),
            final(self).events() == pull_events(scan_lines(final(self).fed()).0),
    {
        let ghost evs0 = self.events@;
        let ghost lines0 = scan_lines(self.buffer.fed()).0;
        let lines = self.buffer.feed(chunk);
        let mut out: Vec<PullProgress> = Vec::new();
        proof {
            assert(lines0 + lines.deep_view().subrange(0, 0) =~= lines0);
        }
        for j in 0..lines.len()
            invariant
                self.buffer.wf(),
                self.events@ == pull_events(lines0 + lines.deep_view().subrange(0, j as int)),
                self.events@ == evs0 + out.deep_view(),
                self.buffer.fed() == old(self).fed() + chunk@,
                scan_lines(self.buffer.fed()).0 == lines0 + lines.deep_view(),
        {
            let ghost evs_pre = self.events@;
            let ghost out_pre = out.deep_view();
            let ghost seen = lines0 + lines.deep_view().subrange(0, j as int);
            proof {
                assert(lines@[j as int].deep_view() =~= lines@[j as int]@);
                assert((lines0 + lines.deep_view().subrange(0, j as int + 1)).drop_last() =~= seen);
                let ghost jline = lines@[j as int]@;
                assert((lines0 + lines.deep_view().subrange(0, j as int + 1)).last() == jline);
            }
            match parse_pull_line(&lines[j]) {
                Some(ev) => {
                    proof {
                        self.events@ = self.events@.push(ev@);
                        assert(self.events@ =~= pull_events(lines0
                            + lines.deep_view().subrange(0, j as int + 1)));
                    }
                    out.push(ev);
                    proof {
                        assert(out.deep_view() =~= out_pre.push(self.events@.last()));
                        assert(self.events@ =~= evs0 + out.deep_view());
                    }
                },
                None => {
                    proof {
                        assert(self.events@ =~= pull_events(lines0
                            + lines.deep_view().subrange(0, j as int + 1)));
                    }
                },
            }
        }
        proof {
            assert(lines0 + lines.deep_view().subrange(0, lines@.len() as int) =~= lines0
                + lines.deep_view());
        }
        out
    }

    /// Ends the stream: if bytes remain after the last separator they are
    /// parsed as one final record, whose event (if it parses) is returned.
    pub fn finish(self) -> (r: Vec<PullProgress>)
        requires
            self.wf(),
        ensures
            r.deep_view() == pull_tail(scan_lines(self.fed()).1),
    {
        let ghost tail = pull_tail(scan_lines(self.buffer.fed()).1);
        let mut out: Vec<PullProgress> = Vec::new();
        match self.buffer.finish() {
            Some(line) => {
                match parse_pull_line(&line) {
                    Some(ev) => {
                        out.push(ev);
                        proof {
                            assert(out.deep_view() =~= tail);
                        }
                    },
                    None => {
                        proof {
                            assert(out.deep_view() =~= tail);
                        }
                    },
                }
            },
            None => {
                proof {
                    assert(out.deep_view() =~= tail);
                }
            },
        }
        out
    }
}

} // verus!
