//! The raw DEFLATE coders of flate2, as the adapter sees them.
use vstd::prelude::*;

verus! {

#[verifier::external_type_specification]
#[verifier::external_body]
pub struct ExCompress(flate2::Compress);

#[verifier::external_type_specification]
#[verifier::external_body]
pub struct ExDecompress(flate2::Decompress);

#[verifier::external_type_specification]
#[verifier::external_body]
pub struct ExCompressError(flate2::CompressError);

#[verifier::external_type_specification]
#[verifier::external_body]
pub struct ExDecompressError(flate2::DecompressError);

#[verifier::external_type_specification]
pub struct ExStatus(flate2::Status);

/// `after` is `before` with zero or more bytes added at its end.
pub open spec fn extends(before: Seq<u8>, after: Seq<u8>) -> bool {
    &&& before.len() <= after.len()
    &&& after.subrange(0, before.len() as int) == before
}

/// The status of a coder call, or none where it failed.
pub open spec fn status_of<E>(r: Result<flate2::Status, E>) -> Option<flate2::Status> {
    match r {
        Ok(s) => Some(s),
        Err(_) => None,
    }
}

/// What one call of a flate2 coder was given and gave back.
pub struct Answer {
    /// Whether it was the request-finish call.
    pub flushing: bool,
    /// The input it was offered.
    pub offered: Seq<u8>,
    /// The bytes it wrote.
    pub produced: Seq<u8>,
    /// Its status, or none where it returned an error.
    pub status: Option<flate2::Status>,
}

/// One call of the coder, with its consumed-bytes counter read before and after.
pub struct Report {
    pub answer: Answer,
    pub in_before: u64,
    pub in_after: u64,
}

/// A flate2 compressor, with the level and header mode it was built with and the
/// record of every call made on it.
pub struct Deflater {
    inner: flate2::Compress,
    level: Ghost<u32>,
    zlib_header: Ghost<bool>,
    answers: Ghost<Seq<Answer>>,
}

/// A flate2 decompressor, with the header mode it was built with and the record of
/// every call made on it.
pub struct Inflater {
    inner: flate2::Decompress,
    zlib_header: Ghost<bool>,
    answers: Ghost<Seq<Answer>>,
}

/// Relies on flate2::Compress::new: a compressor at `level`, with a zlib header where
/// `zlib_header`, before any call; the backend asserts that the level is at most 10.
#[verifier::external_body]
fn new_compress(level: u32, zlib_header: bool) -> (r: Deflater)
    requires
        level <= 10,
    ensures
        r.level@ == level,
        r.zlib_header@ == zlib_header,
        r.answers@ == Seq::<Answer>::empty(),
{
    Deflater {
        inner: flate2::Compress::new(flate2::Compression::new(level), zlib_header),
        level: Ghost(level),
        zlib_header: Ghost(zlib_header),
        answers: Ghost(Seq::empty()),
    }
}

/// Relies on flate2::Decompress::new: a decompressor expecting a zlib header where
/// `zlib_header`, before any call.
#[verifier::external_body]
fn new_decompress(zlib_header: bool) -> (r: Inflater)
    ensures
        r.zlib_header@ == zlib_header,
        r.answers@ == Seq::<Answer>::empty(),
{
    Inflater {
        inner: flate2::Decompress::new(zlib_header),
        zlib_header: Ghost(zlib_header),
        answers: Ghost(Seq::empty()),
    }
}

/// Relies on flate2::Compress::compress_vec with FlushCompress::None: it writes only
/// into the spare capacity of `out`, so what `out` held stays in front; the call is
/// recorded with what it wrote and returned.
#[verifier::external_body]
fn compress_some(d: &mut Deflater, input: &[u8], out: &mut Vec<u8>) -> (r: Result<
    flate2::Status,
    flate2::CompressError,
>)
    ensures
        final(d).level == old(d).level,
        extends(old(out)@, final(out)@),
        final(d).zlib_header == old(d).zlib_header,
        final(d).answers@ == old(d).answers@.push(
            Answer {
                flushing: false,
                offered: input@,
                produced: final(out)@.subrange(old(out)@.len() as int, final(out)@.len() as int),
                status: status_of(r),
            },
        ),
{
    d.inner.compress_vec(input, out, flate2::FlushCompress::None)
}

/// Relies on flate2::Compress::compress_vec with FlushCompress::Finish: it writes only
/// into the spare capacity of `out`, so what `out` held stays in front; the call is
/// recorded with what it wrote and returned.
#[verifier::external_body]
fn compress_finish(d: &mut Deflater, input: &[u8], out: &mut Vec<u8>) -> (r: Result<
    flate2::Status,
    flate2::CompressError,
>)
    ensures
        final(d).level == old(d).level,
        extends(old(out)@, final(out)@),
        final(d).zlib_header == old(d).zlib_header,
        final(d).answers@ == old(d).answers@.push(
            Answer {
                flushing: true,
                offered: input@,
                produced: final(out)@.subrange(old(out)@.len() as int, final(out)@.len() as int),
                status: status_of(r),
            },
        ),
{
    d.inner.compress_vec(input, out, flate2::FlushCompress::Finish)
}

/// Relies on flate2::Decompress::decompress_vec with FlushDecompress::None: it writes
/// only into the spare capacity of `out`, so what `out` held stays in front; the call
/// is recorded with what it wrote and returned.
#[verifier::external_body]
fn decompress_some(d: &mut Inflater, input: &[u8], out: &mut Vec<u8>) -> (r: Result<
    flate2::Status,
    flate2::DecompressError,
>)
    ensures
        extends(old(out)@, final(out)@),
        final(d).zlib_header == old(d).zlib_header,
        final(d).answers@ == old(d).answers@.push(
            Answer {
                flushing: false,
                offered: input@,
                produced: final(out)@.subrange(old(out)@.len() as int, final(out)@.len() as int),
                status: status_of(r),
            },
        ),
{
    d.inner.decompress_vec(input, out, flate2::FlushDecompress::None)
}

/// Relies on flate2::Decompress::decompress_vec with FlushDecompress::Finish: it
/// writes only into the spare capacity of `out`, so what `out` held stays in front;
/// the call is recorded with what it wrote and returned.
#[verifier::external_body]
fn decompress_finish(d: &mut Inflater, input: &[u8], out: &mut Vec<u8>) -> (r: Result<
    flate2::Status,
    flate2::DecompressError,
>)
    ensures
        extends(old(out)@, final(out)@),
        final(d).zlib_header == old(d).zlib_header,
        final(d).answers@ == old(d).answers@.push(
            Answer {
                flushing: true,
                offered: input@,
                produced: final(out)@.subrange(old(out)@.len() as int, final(out)@.len() as int),
                status: status_of(r),
            },
        ),
{
    d.inner.decompress_vec(input, out, flate2::FlushDecompress::Finish)
}

/// Relies on flate2::Compress::total_in, the count of input bytes consumed so far.
/// Nothing is assumed of the value: the adapter checks every difference it reads.
pub assume_specification[ flate2::Compress::total_in ](c: &flate2::Compress) -> u64;

/// Relies on flate2::Decompress::total_in, the count of input bytes consumed so far.
/// Nothing is assumed of the value: the adapter checks every difference it reads.
pub assume_specification[ flate2::Decompress::total_in ](d: &flate2::Decompress) -> u64;

/// A fatal condition met while running the coder.
#[derive(Clone, Copy, Debug, PartialEq, Eq, Structural)]
pub enum CoderError {
    /// The compressor reported an error.
    Compress,
    /// The decompressor found the compressed bytes malformed.
    Corrupt,
    /// The input ended before the coder could reach the end of its stream.
    Truncated,
    /// The coder neither consumed nor produced anything, reported counts that do not
    /// fit the input it was offered, or was offered input after its stream ended.
    Stalled,
}

/// The outcome of a coder call as the adapter sees it: the coder's own error becomes
/// `Compress` or `Corrupt` by direction.
pub open spec fn outcome_of(status: Option<flate2::Status>, compresses: bool) -> Result<
    flate2::Status,
    CoderError,
> {
    match status {
        Some(s) => Ok(s),
        None => Err(if compresses {
            CoderError::Compress
        } else {
            CoderError::Corrupt
        }),
    }
}

enum Engine {
    Deflate(Deflater),
    Inflate(Inflater),
}

/// The result of one coder call: its outcome and the consumed-bytes counter read
/// before and after it.
pub struct Invocation {
    pub outcome: Result<flate2::Status, CoderError>,
    pub in_before: u64,
    pub in_after: u64,
}

/// An incremental DEFLATE coder, in one of the two directions, with the record of
/// every call made on it.
pub struct Coder {
    engine: Engine,
    ended: bool,
    counts: Ghost<Seq<(u64, u64)>>,
}

/// The largest compression level that the compressor accepts.
pub const MAX_LEVEL: u32 = 10;

impl Coder {
    pub closed spec fn compresses(&self) -> bool {
        self.engine is Deflate
    }

    /// The compression level (0 for a decompressor).
    pub closed spec fn level(&self) -> u32 {
        match self.engine {
            Engine::Deflate(d) => d.level@,
            Engine::Inflate(_) => 0,
        }
    }

    /// Whether the stream carries a zlib header (else it is raw DEFLATE).
    pub closed spec fn zlib_header(&self) -> bool {
        match self.engine {
            Engine::Deflate(d) => d.zlib_header@,
            Engine::Inflate(i) => i.zlib_header@,
        }
    }

    /// Whether some call has reported the end of the stream.
    pub closed spec fn ended(&self) -> bool {
        self.ended
    }

    closed spec fn answers(&self) -> Seq<Answer> {
        match self.engine {
            Engine::Deflate(d) => d.answers@,
            Engine::Inflate(i) => i.answers@,
        }
    }

    /// Every call made on the coder, in order.
    pub closed spec fn reports(&self) -> Seq<Report> {
        Seq::new(
            self.counts@.len(),
            |i: int|
                Report {
                    answer: self.answers()[i],
                    in_before: self.counts@[i].0,
                    in_after: self.counts@[i].1,
                },
        )
    }

    pub closed spec fn wf(&self) -> bool {
        self.counts@.len() == self.answers().len()
    }

    /// A raw (headerless) compressor at `level` (0 stores, 9 and 10 compress best).
    pub fn deflate(level: u32) -> (r: Coder)
        requires
            level <= MAX_LEVEL,
        ensures
            r.wf(),
            r.compresses(),
            r.level() == level,
            !r.zlib_header(),
            !r.ended(),
            r.reports() == Seq::<Report>::empty(),
    {
        let r = Coder {
            engine: Engine::Deflate(new_compress(level, false)),
            ended: false,
            counts: Ghost(Seq::empty()),
        };
        assert(r.reports() =~= Seq::<Report>::empty());
        r
    }

    /// A raw (headerless) decompressor.
    pub fn inflate() -> (r: Coder)
        ensures
            r.wf(),
            !r.compresses(),
            r.level() == 0,
            !r.zlib_header(),
            !r.ended(),
            r.reports() == Seq::<Report>::empty(),
    {
        let r = Coder {
            engine: Engine::Inflate(new_decompress(false)),
            ended: false,
            counts: Ghost(Seq::empty()),
        };
        assert(r.reports() =~= Seq::<Report>::empty());
        r
    }

    /// Whether some call has reported the end of the stream.
    pub fn has_ended(&self) -> (r: bool)
        ensures
            r == self.ended(),
    {
        self.ended
    }

    /// One call of the coder on `input`, writing after what `out` holds: the
    /// request-finish call where `flushing`, else an incremental one.
    pub fn run(&mut self, input: &[u8], flushing: bool, out: &mut Vec<u8>) -> (r: Invocation)
        requires
            old(self).wf(),
        ensures
            final(self).wf(),
            final(self).compresses() == old(self).compresses(),
            final(self).level() == old(self).level(),
            final(self).zlib_header() == old(self).zlib_header(),
            extends(old(out)@, final(out)@),
            final(self).reports() == old(self).reports().push(
                Report {
                    answer: Answer {
                        flushing,
                        offered: input@,
                        produced: final(out)@.subrange(
                            old(out)@.len() as int,
                            final(out)@.len() as int,
                        ),
                        status: final(self).reports().last().answer.status,
                    },
                    in_before: r.in_before,
                    in_after: r.in_after,
                },
            ),
            r.outcome == outcome_of(final(self).reports().last().answer.status, old(self).compresses()),
            final(self).ended() == (old(self).ended() || r.outcome == Ok::<
                flate2::Status,
                CoderError,
            >(flate2::Status::StreamEnd)),
    {
        let in_before = self.total_in();
        let outcome = match &mut self.engine {
            Engine::Deflate(d) => {
                let res = if flushing {
                    compress_finish(d, input, out)
                } else {
                    compress_some(d, input, out)
                };
                match res {
                    Ok(s) => Ok(s),
                    Err(_) => Err(CoderError::Compress),
                }
            },
            Engine::Inflate(i) => {
                let res = if flushing {
                    decompress_finish(i, input, out)
                } else {
                    decompress_some(i, input, out)
                };
                match res {
                    Ok(s) => Ok(s),
                    Err(_) => Err(CoderError::Corrupt),
                }
            },
        };
        let in_after = self.total_in();
        self.counts = Ghost(self.counts@.push((in_before, in_after)));
        if matches!(outcome, Ok(flate2::Status::StreamEnd)) {
            self.ended = true;
        }
        proof {
            let n = self.counts@.len() - 1;
            assert(self.reports().drop_last() =~= old(self).reports());
            assert(self.reports() =~= old(self).reports().push(self.reports()[n]));
        }
        Invocation { outcome, in_before, in_after }
    }

    fn total_in(&self) -> u64 {
        match &self.engine {
            Engine::Deflate(d) => d.inner.total_in(),
            Engine::Inflate(i) => i.inner.total_in(),
        }
    }
}

} // verus!
