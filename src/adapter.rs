//! The generic engine: drives a coder across chunks pulled from an upstream source.
use vstd::prelude::*;
use vstd::slice::{slice_subrange, slice_to_vec};
use crate::coder::{outcome_of, Coder, CoderError, Report};

verus! {

/// Capacity of the scratch buffer that each coder invocation writes into.
pub const SCRATCH_CAPACITY: usize = 8192;

/// How far the adapter has come; it only ever moves forward.
#[derive(Clone, Copy, Debug, PartialEq, Eq, Structural)]
pub enum Phase {
    /// Still pulling input.
    Active,
    /// The input is exhausted; the coder is emitting what remains.
    Flushing,
    /// No further output will ever come.
    Finished,
}

pub open spec fn rank(p: Phase) -> int {
    match p {
        Phase::Active => 0,
        Phase::Flushing => 1,
        Phase::Finished => 2,
    }
}

/// What the adapter does after one coder invocation.
#[derive(Clone, Copy, Debug, PartialEq, Eq, Structural)]
pub enum Verdict {
    /// Hand out what the coder produced, after `consumed` input bytes.
    Emit { consumed: usize },
    /// Nothing produced yet: drop `consumed` input bytes and invoke the coder again.
    Continue { consumed: usize },
    /// The flush is complete.
    End,
    /// Stop for good.
    Fail(CoderError),
}

/// The verdict on a coder invocation that was offered `offered` input bytes, reported
/// its consumed-bytes counter as `in_before` and then `in_after`, and produced
/// `produced` bytes; `flushing` when it was the request-finish invocation. A stream
/// that ends while input is left over stalls, and so does a call that wrote more than
/// the scratch buffer's capacity.
pub open spec fn verdict(
    flushing: bool,
    outcome: Result<flate2::Status, CoderError>,
    in_before: u64,
    in_after: u64,
    offered: int,
    produced: int,
) -> Verdict {
    match outcome {
        Err(e) => Verdict::Fail(e),
        Ok(status) => {
            if in_after < in_before || in_after - in_before > offered || produced
                > SCRATCH_CAPACITY {
                Verdict::Fail(CoderError::Stalled)
            } else {
                let consumed = (in_after - in_before) as usize;
                let ended = status == flate2::Status::StreamEnd;
                if produced > 0 {
                    Verdict::Emit { consumed }
                } else if flushing {
                    if ended {
                        Verdict::End
                    } else {
                        Verdict::Fail(CoderError::Truncated)
                    }
                } else if consumed > 0 && !(ended && consumed < offered) {
                    Verdict::Continue { consumed }
                } else {
                    Verdict::Fail(CoderError::Stalled)
                }
            }
        },
    }
}

/// Decides what follows a coder invocation, from what the coder reported.
pub fn decide(
    flushing: bool,
    outcome: Result<flate2::Status, CoderError>,
    in_before: u64,
    in_after: u64,
    offered: usize,
    produced: usize,
) -> (r: Verdict)
    ensures
        r == verdict(flushing, outcome, in_before, in_after, offered as int, produced as int),
{
    match outcome {
        Err(e) => Verdict::Fail(e),
        Ok(status) => {
            if in_after < in_before || in_after - in_before > offered as u64 || produced
                > SCRATCH_CAPACITY {
                return Verdict::Fail(CoderError::Stalled);
            }
            let consumed = (in_after - in_before) as usize;
            let ended = matches!(status, flate2::Status::StreamEnd);
            if produced > 0 {
                Verdict::Emit { consumed }
            } else if flushing {
                if ended {
                    Verdict::End
                } else {
                    Verdict::Fail(CoderError::Truncated)
                }
            } else if consumed > 0 && !(ended && consumed < offered) {
                Verdict::Continue { consumed }
            } else {
                Verdict::Fail(CoderError::Stalled)
            }
        },
    }
}

/// The input bytes that a recorded call consumed, by its counter.
pub open spec fn consumed(rep: Report) -> int {
    rep.in_after - rep.in_before
}

/// What a recorded call left of the input it was offered.
pub open spec fn left_after(rep: Report) -> Seq<u8> {
    rep.answer.offered.subrange(consumed(rep), rep.answer.offered.len() as int)
}

/// The verdict on a recorded call.
pub open spec fn report_verdict(rep: Report, compresses: bool) -> Verdict {
    verdict(
        rep.answer.flushing,
        outcome_of(rep.answer.status, compresses),
        rep.in_before,
        rep.in_after,
        rep.answer.offered.len() as int,
        rep.answer.produced.len() as int,
    )
}

/// `calls` are the coder calls of one drive that found `waiting` input and ran in the
/// flush mode `flushing`: each was offered what the one before left, and all but the
/// last consumed input without producing output.
pub open spec fn chained(calls: Seq<Report>, waiting: Seq<u8>, flushing: bool, compresses: bool) -> bool {
    &&& forall|j: int|
        0 <= j < calls.len() ==> (#[trigger] calls[j]).answer.offered == (if j == 0 {
            waiting
        } else {
            left_after(calls[j - 1])
        }) && calls[j].answer.flushing == flushing
    &&& forall|j: int|
        0 <= j < calls.len() - 1 ==> report_verdict(#[trigger] calls[j], compresses) is Continue
}

/// What the upstream source yielded when it was polled.
pub enum Upstream {
    /// The next input chunk (possibly empty).
    Chunk(Vec<u8>),
    /// Nothing yet: the source will wake the consumer later.
    NotReady,
    /// The end of the input.
    Exhausted,
    /// The source failed; its error stays with the caller.
    Failed,
}

/// What one step of the adapter hands to its caller.
pub enum Step {
    /// A non-empty output chunk.
    Emit(Vec<u8>),
    /// The caller is to poll the upstream source and pass what it yields to `resume`.
    NeedInput,
    /// The upstream source is not ready: suspend.
    Pending,
    /// The end of the output.
    End,
    /// The upstream source failed; the adapter has stopped.
    UpstreamFailed,
    /// The coder failed; the adapter has stopped.
    Fail(CoderError),
}

/// The adapter as its contracts see it.
pub struct AdapterModel {
    pub phase: Phase,
    /// Whether the coder compresses (else it decompresses).
    pub compresses: bool,
    /// The compression level (0 for a decompressor).
    pub level: u32,
    /// Whether the stream carries a zlib header (else it is raw DEFLATE).
    pub zlib_header: bool,
    /// Whether the coder has reported the end of its stream.
    pub ended: bool,
    /// Every call made on the coder, in order.
    pub reports: Seq<Report>,
    /// Every byte of every chunk received from upstream, in order.
    pub received: Seq<u8>,
    /// The bytes that the coder has consumed, in order.
    pub fed: Seq<u8>,
    /// The bytes received and not yet consumed.
    pub waiting: Seq<u8>,
}

/// Nothing is lost or repeated between upstream and the coder, and a flush only starts
/// once all input is consumed.
pub open spec fn consistent(m: AdapterModel) -> bool {
    &&& m.fed + m.waiting == m.received
    &&& m.phase == Phase::Flushing ==> m.waiting.len() == 0
}

/// Waits for the next chunk from upstream.
pub open spec fn awaits_input(m: AdapterModel) -> bool {
    m.phase == Phase::Active && m.waiting.len() == 0
}

/// What one drive of the coder, starting in `pre`, leaves behind: the coder was
/// offered exactly the waiting input, and the step follows the verdict on its last
/// call; without a call the adapter only ends, asks for input, or refuses input that
/// follows the end of the coder's stream.
pub open spec fn drive_post(pre: AdapterModel, post: AdapterModel, r: Step) -> bool {
    let calls = post.reports.subrange(pre.reports.len() as int, post.reports.len() as int);
    &&& consistent(post)
    &&& post.compresses == pre.compresses
    &&& post.level == pre.level
    &&& post.zlib_header == pre.zlib_header
    &&& post.received == pre.received
    &&& pre.reports.is_prefix_of(post.reports)
    &&& pre.fed.is_prefix_of(post.fed)
    &&& rank(pre.phase) <= rank(post.phase)
    &&& pre.phase == Phase::Finished ==> r is End && post == pre
    &&& awaits_input(pre) ==> r is NeedInput && post == pre
    &&& r !is Pending && r !is UpstreamFailed
    &&& r matches Step::Emit(chunk) ==> 0 < chunk@.len() <= SCRATCH_CAPACITY
    &&& r is NeedInput ==> awaits_input(post)
    &&& r is End ==> post.phase == Phase::Finished && (pre.phase == Phase::Finished || (
    pre.phase == Phase::Flushing && post.fed == post.received))
    &&& chained(calls, pre.waiting, pre.phase == Phase::Flushing, pre.compresses)
    &&& calls.len() == 0 ==> (pre.phase == Phase::Finished || awaits_input(pre) || {
        &&& pre.ended
        &&& post.phase == Phase::Finished
        &&& post.fed == pre.fed
        &&& (pre.phase == Phase::Flushing ==> r is End)
        &&& (pre.phase == Phase::Active ==> r == Step::Fail(CoderError::Stalled))
    })
    &&& calls.len() > 0 ==> {
        let last = calls.last();
        let v = report_verdict(last, pre.compresses);
        &&& !pre.ended
        &&& match r {
            Step::Emit(chunk) => {
                &&& v is Emit
                &&& chunk@ == last.answer.produced
                &&& post.phase == pre.phase
                &&& post.waiting == left_after(last)
            },
            Step::NeedInput => v is Continue && post.waiting == left_after(last),
            Step::End => v is End && post.phase == Phase::Finished,
            Step::Fail(e) => v == Verdict::Fail(e) && post.phase == Phase::Finished,
            _ => false,
        }
    }
}

/// The model of an adapter before any input.
pub open spec fn fresh(compresses: bool, level: u32) -> AdapterModel {
    AdapterModel {
        phase: Phase::Active,
        compresses,
        level,
        zlib_header: false,
        ended: false,
        reports: Seq::empty(),
        received: Seq::empty(),
        fed: Seq::empty(),
        waiting: Seq::empty(),
    }
}

/// The incremental engine: one coder, one pending input chunk with the offset of its
/// first byte not yet consumed, and one scratch buffer that every coder invocation
/// writes into after it is cleared.
pub struct CoderAdapter {
    coder: Coder,
    phase: Phase,
    pending: Vec<u8>,
    offset: usize,
    scratch: Vec<u8>,
    received: Ghost<Seq<u8>>,
    fed: Ghost<Seq<u8>>,
}

impl View for CoderAdapter {
    type V = AdapterModel;

    closed spec fn view(&self) -> AdapterModel {
        AdapterModel {
            phase: self.phase,
            compresses: self.coder.compresses(),
            level: self.coder.level(),
            zlib_header: self.coder.zlib_header(),
            ended: self.coder.ended(),
            reports: self.coder.reports(),
            received: self.received@,
            fed: self.fed@,
            waiting: self.pending@.subrange(self.offset as int, self.pending@.len() as int),
        }
    }
}

/// What one call of `poll_output` does.
pub open spec fn poll_post(pre: CoderAdapter, post: CoderAdapter, r: Step) -> bool {
    &&& drive_post(pre@, post@, r)
    &&& (pre@.phase == Phase::Finished || awaits_input(pre@)) ==> post == pre
}

/// What one call of `resume` with `item` does.
pub open spec fn resume_post(pre: CoderAdapter, item: Upstream, post: CoderAdapter, r: Step) -> bool {
    match item {
        Upstream::NotReady => r is Pending && post == pre,
        Upstream::Failed => r is UpstreamFailed && post@ == AdapterModel {
            phase: Phase::Finished,
            ..pre@
        },
        Upstream::Exhausted => drive_post(AdapterModel { phase: Phase::Flushing, ..pre@ }, post@, r),
        Upstream::Chunk(c) => drive_post(
            AdapterModel { received: pre@.received + c@, waiting: c@, ..pre@ },
            post@,
            r,
        ),
    }
}

impl CoderAdapter {
    /// The offset lies within the pending chunk, and the model is consistent.
    pub closed spec fn wf(&self) -> bool {
        &&& self.offset <= self.pending@.len()
        &&& self.coder.wf()
        &&& consistent(self@)
    }

    /// A fresh adapter around `coder`, before any call of it.
    pub fn new(coder: Coder) -> (r: CoderAdapter)
        requires
            coder.wf(),
            !coder.zlib_header(),
            !coder.ended(),
            coder.reports() == Seq::<Report>::empty(),
        ensures
            r.wf(),
            r@ == fresh(coder.compresses(), coder.level()),
    {
        let r = CoderAdapter {
            coder,
            phase: Phase::Active,
            pending: Vec::new(),
            offset: 0,
            scratch: Vec::with_capacity(SCRATCH_CAPACITY),
            received: Ghost(Seq::empty()),
            fed: Ghost(Seq::empty()),
        };
        assert(r@.waiting =~= Seq::<u8>::empty());
        r
    }

    /// Whether the adapter waits for the next chunk from upstream.
    pub fn wants_input(&self) -> (r: bool)
        requires
            self.wf(),
        ensures
            r == awaits_input(self@),
    {
        self.phase == Phase::Active && self.offset == self.pending.len()
    }

    /// Whether no further output will come.
    pub fn is_finished(&self) -> (r: bool)
        ensures
            r == (self@.phase == Phase::Finished),
    {
        self.phase == Phase::Finished
    }

    /// Runs the coder until it has output, needs input, ends or fails. Once the adapter
    /// has finished, by its end or by a failure, every further call returns `Step::End`
    /// and changes nothing.
    #[verifier::rlimit(100)]
    pub fn poll_output(&mut self) -> (r: Step)
        requires
            old(self).wf(),
        ensures
            final(self).wf(),
            poll_post(*old(self), *final(self), r),
    {
        if self.phase == Phase::Finished {
            return Step::End;
        }
        if self.phase == Phase::Active && self.offset == self.pending.len() {
            return Step::NeedInput;
        }
        if self.coder.has_ended() {
            let was_flushing = self.phase == Phase::Flushing;
            self.phase = Phase::Finished;
            if was_flushing {
                return Step::End;
            }
            return Step::Fail(CoderError::Stalled);
        }
        let flushing = self.phase == Phase::Flushing;
        let ghost n0 = old(self)@.reports.len() as int;
        loop
            invariant
                self.wf(),
                self.phase != Phase::Finished,
                self.phase == old(self).phase,
                flushing == (self.phase == Phase::Flushing),
                !awaits_input(old(self)@),
                !old(self)@.ended,
                self@.ended ==> self@.waiting.len() == 0,
                self@.compresses == old(self)@.compresses,
                self@.level == old(self)@.level,
                self@.zlib_header == old(self)@.zlib_header,
                self@.received == old(self)@.received,
                old(self)@.reports.is_prefix_of(self@.reports),
                old(self)@.fed.is_prefix_of(self@.fed),
                n0 == old(self)@.reports.len(),
                chained(self@.reports.subrange(n0, self@.reports.len() as int), old(self)@.waiting, flushing, self@.compresses),
                self@.reports.len() == n0 ==> self@.waiting == old(self)@.waiting,
                self@.reports.len() > n0 ==> {
                    &&& report_verdict(self@.reports.last(), self@.compresses) is Continue
                    &&& self@.waiting == left_after(self@.reports.last())
                },
            decreases self.pending@.len() - self.offset,
        {
            if !flushing && self.offset == self.pending.len() {
                proof {
                    let calls = self@.reports.subrange(n0, self@.reports.len() as int);
                    assert(calls.last() == self@.reports.last());
                }
                return Step::NeedInput;
            }
            let offered = self.pending.len() - self.offset;
            let ghost pre = self@;
            self.scratch.clear();
            let input = slice_subrange(self.pending.as_slice(), self.offset, self.pending.len());
            let inv = self.coder.run(input, flushing, &mut self.scratch);
            proof {
                let calls0 = pre.reports.subrange(n0, pre.reports.len() as int);
                let calls = self@.reports.subrange(n0, self@.reports.len() as int);
                assert(calls =~= calls0.push(self@.reports.last()));
                assert(self.scratch@ =~= self@.reports.last().answer.produced);
                assert(self@.reports.last().answer.offered == pre.waiting);
                assert forall|j: int| 0 <= j < calls.len() - 1 implies report_verdict(
                    #[trigger] calls[j],
                    self@.compresses,
                ) is Continue by {
                    if j < calls0.len() - 1 {
                        assert(calls[j] == calls0[j]);
                    } else {
                        assert(calls[j] == pre.reports.last());
                    }
                }
                assert forall|j: int| 0 <= j < calls.len() implies (#[trigger] calls[j]).answer.offered == (
                if j == 0 {
                    old(self)@.waiting
                } else {
                    left_after(calls[j - 1])
                }) && calls[j].answer.flushing == flushing by {
                    if j < calls0.len() {
                        assert(calls[j] == calls0[j]);
                        if j > 0 {
                            assert(calls[j - 1] == calls0[j - 1]);
                        }
                    } else if j > 0 {
                        assert(calls[j - 1] == pre.reports.last());
                    }
                }
                assert(old(self)@.reports.is_prefix_of(self@.reports));
            }
            match decide(flushing, inv.outcome, inv.in_before, inv.in_after, offered, self.scratch.len()) {
                Verdict::Emit { consumed } => {
                    self.consume(consumed);
                    return Step::Emit(slice_to_vec(self.scratch.as_slice()));
                },
                Verdict::Continue { consumed } => {
                    self.consume(consumed);
                },
                Verdict::End => {
                    self.phase = Phase::Finished;
                    return Step::End;
                },
                Verdict::Fail(e) => {
                    self.phase = Phase::Finished;
                    return Step::Fail(e);
                },
            }
        }
    }

    /// Takes what the upstream source yielded, while the adapter waits for input, and
    /// goes on as `poll_output` does.
    pub fn resume(&mut self, item: Upstream) -> (r: Step)
        requires
            old(self).wf(),
            awaits_input(old(self)@),
        ensures
            final(self).wf(),
            resume_post(*old(self), item, *final(self), r),
    {
        match item {
            Upstream::NotReady => Step::Pending,
            Upstream::Failed => {
                self.phase = Phase::Finished;
                Step::UpstreamFailed
            },
            Upstream::Exhausted => {
                self.phase = Phase::Flushing;
                self.poll_output()
            },
            Upstream::Chunk(c) => {
                self.received = Ghost(self.received@ + c@);
                self.pending = c;
                self.offset = 0;
                assert(self@.waiting =~= self.pending@);
                assert(self@.fed + self@.waiting =~= self@.received);
                self.poll_output()
            },
        }
    }

    /// Marks the next `n` waiting bytes as consumed by the coder.
    fn consume(&mut self, n: usize)
        requires
            old(self).wf(),
            n <= old(self).pending@.len() - old(self).offset,
        ensures
            final(self).wf(),
            final(self).phase == old(self).phase,
            final(self).coder == old(self).coder,
            final(self).pending == old(self).pending,
            final(self).scratch == old(self).scratch,
            final(self).offset == old(self).offset + n,
            final(self)@.received == old(self)@.received,
            final(self)@.fed == old(self)@.fed + old(self)@.waiting.subrange(0, n as int),
            final(self)@.waiting == old(self)@.waiting.subrange(n as int, old(self)@.waiting.len() as int),
    {
        let ghost start = self.offset as int;
        let len = self.pending.len();
        self.fed = Ghost(self.fed@ + self.pending@.subrange(start, start + n));
        self.offset = self.offset + n;
        proof {
            let p = self.pending@;
            assert(self@.waiting =~= p.subrange(start + n, p.len() as int));
            assert(old(self)@.waiting.subrange(0, n as int) =~= p.subrange(start, start + n));
            assert(self@.fed + self@.waiting =~= old(self)@.fed + old(self)@.waiting);
        }
    }
}

} // verus!
