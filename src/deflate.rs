//! The two directions of raw DEFLATE over the adapter.
use vstd::prelude::*;
use crate::adapter::{awaits_input, fresh, poll_post, resume_post, CoderAdapter, Step, Upstream};
use crate::coder::{Coder, MAX_LEVEL};

verus! {

/// A DEFLATE encoder, or compressor: reads uncompressed chunks and emits a raw
/// (headerless) compressed stream.
pub struct DeflateEncoder {
    inner: CoderAdapter,
}

/// A DEFLATE decoder, or decompressor: reads raw (headerless) compressed chunks and
/// emits the uncompressed bytes.
pub struct DeflateDecoder {
    inner: CoderAdapter,
}

impl DeflateEncoder {
    pub closed spec fn adapter(&self) -> CoderAdapter {
        self.inner
    }

    /// An encoder at compression `level`, before any input.
    pub fn new(level: u32) -> (r: DeflateEncoder)
        requires
            level <= MAX_LEVEL,
        ensures
            r.adapter().wf(),
            r.adapter()@ == fresh(true, level),
    {
        DeflateEncoder { inner: CoderAdapter::new(Coder::deflate(level)) }
    }

    /// Whether the encoder waits for the next uncompressed chunk.
    pub fn wants_input(&self) -> (r: bool)
        requires
            self.adapter().wf(),
        ensures
            r == awaits_input(self.adapter()@),
    {
        self.inner.wants_input()
    }

    /// See `CoderAdapter::poll_output`.
    pub fn poll_output(&mut self) -> (r: Step)
        requires
            old(self).adapter().wf(),
        ensures
            final(self).adapter().wf(),
            poll_post(old(self).adapter(), final(self).adapter(), r),
    {
        self.inner.poll_output()
    }

    /// See `CoderAdapter::resume`.
    pub fn resume(&mut self, item: Upstream) -> (r: Step)
        requires
            old(self).adapter().wf(),
            awaits_input(old(self).adapter()@),
        ensures
            final(self).adapter().wf(),
            resume_post(old(self).adapter(), item, final(self).adapter(), r),
    {
        self.inner.resume(item)
    }
}

impl DeflateDecoder {
    pub closed spec fn adapter(&self) -> CoderAdapter {
        self.inner
    }

    /// A decoder, before any input.
    pub fn new() -> (r: DeflateDecoder)
        ensures
            r.adapter().wf(),
            r.adapter()@ == fresh(false, 0),
    {
        DeflateDecoder { inner: CoderAdapter::new(Coder::inflate()) }
    }

    /// Whether the decoder waits for the next compressed chunk.
    pub fn wants_input(&self) -> (r: bool)
        requires
            self.adapter().wf(),
        ensures
            r == awaits_input(self.adapter()@),
    {
        self.inner.wants_input()
    }

    /// See `CoderAdapter::poll_output`.
    pub fn poll_output(&mut self) -> (r: Step)
        requires
            old(self).adapter().wf(),
        ensures
            final(self).adapter().wf(),
            poll_post(old(self).adapter(), final(self).adapter(), r),
    {
        self.inner.poll_output()
    }

    /// See `CoderAdapter::resume`.
    pub fn resume(&mut self, item: Upstream) -> (r: Step)
        requires
            old(self).adapter().wf(),
            awaits_input(old(self).adapter()@),
        ensures
            final(self).adapter().wf(),
            resume_post(old(self).adapter(), item, final(self).adapter(), r),
    {
        self.inner.resume(item)
    }
}

} // verus!
