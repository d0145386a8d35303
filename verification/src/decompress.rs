//! The decompression session, and decompression in one call.

use crate::codes;
use crate::drain::{drained, taken};
use crate::report::{DecoderReport, DecoderResult};
use crate::status::{DeStatus, Error};
use crate::view::{advance_input, advance_output, passed, remainder, truncate_output};
use vstd::prelude::*;

verus! {

/// A decompression session: the course of one brotli stream through the
/// decoder.
///
/// The decoder itself is driven from outside. After each call to it, a
/// method of the session takes what the decoder reported, moves the
/// caller's views and says how the step ended. What the session keeps is
/// whether the stream has ended: a session that has reported `Finished`
/// takes no further step.
pub struct Decompress {
    finished: Ghost<bool>,
}

impl Decompress {
    /// Whether the session has reported the end of its stream.
    pub closed spec fn finished(&self) -> bool {
        self.finished@
    }

    /// What a result of the decoder means for the caller.
    pub open spec fn outcome(result: DecoderResult) -> Result<DeStatus, Error> {
        match result {
            DecoderResult::Error => Err(Error),
            DecoderResult::Success => Ok(DeStatus::Finished),
            DecoderResult::NeedsMoreInput => Ok(DeStatus::NeedInput),
            DecoderResult::NeedsMoreOutput => Ok(DeStatus::NeedOutput),
        }
    }

    /// A session at the start of a stream.
    pub fn new() -> (session: Decompress)
        ensures
            !session.finished(),
    {
        Decompress { finished: Ghost(false) }
    }

    /// Ends a step of decompression: the decoder was called on `input` and
    /// `output`, has written to the front of `output`, and `report` is what
    /// it reported.
    ///
    /// `input` is moved to the bytes that were not consumed and `output` to
    /// the bytes that still are to be filled, so each view shrinks by exactly
    /// what the decoder reports as consumed or written. The bytes written stay
    /// in place before the new output view.
    ///
    /// The result is an error if and only if the decoder found that the
    /// input is no valid stream; it is such an error with the views moved
    /// all the same.
    pub fn decompress<'a>(
        &mut self,
        input: &mut &[u8],
        output: &mut &'a mut [u8],
        report: DecoderReport,
    ) -> (r: Result<DeStatus, Error>)
        requires
            !old(self).finished(),
            report.fits(old(input)@.len(), old(output)@.len()),
        ensures
            r == Self::outcome(report.result),
            final(input)@ == remainder(old(input)@, report.available_in as nat),
            final(output)@ == remainder(old(output)@, report.available_out as nat),
            final(*old(output))@ == passed(old(output)@, report.available_out as nat)
                + final(*final(output))@,
            old(input)@.len() - final(input)@.len() == report.consumed(old(input)@.len()),
            old(output)@.len() - final(output)@.len() == report.written(old(output)@.len()),
            0 <= report.consumed(old(input)@.len()) <= old(input)@.len(),
            0 <= report.written(old(output)@.len()) <= old(output)@.len(),
            final(self).finished() == (r == Ok::<DeStatus, Error>(DeStatus::Finished)),
    {
        advance_input(input, report.available_in);
        advance_output(output, report.available_out);
        let r = Self::rc(report.result);
        self.finished = Ghost(report.result == DecoderResult::Success);
        r
    }

    /// Hands out what the decoder handed over of the output that it held
    /// back, with `size_limit` the limit that was set for it (`None` for all
    /// there is).
    ///
    /// `chunk` is what the decoder handed over: what `take_request` asked
    /// for, or nothing where it asked for nothing. The result is `None`
    /// under a limit of zero, and `None` once the decoder has nothing left.
    pub fn take_output<'a>(&mut self, size_limit: Option<usize>, chunk: &'a [u8]) -> (out: Option<
        &'a [u8],
    >)
        ensures
            out is Some <==> drained(size_limit, chunk@) is Some,
            out matches Some(bytes) ==> bytes == chunk,
            final(self).finished() == old(self).finished(),
    {
        taken(size_limit, chunk)
    }

    /// What a result of the decoder means for the caller.
    pub fn rc(result: DecoderResult) -> (r: Result<DeStatus, Error>)
        ensures
            r == Self::outcome(result),
    {
        match result {
            DecoderResult::Error => Err(Error),
            DecoderResult::Success => Ok(DeStatus::Finished),
            DecoderResult::NeedsMoreInput => Ok(DeStatus::NeedInput),
            DecoderResult::NeedsMoreOutput => Ok(DeStatus::NeedOutput),
        }
    }
}

/// A step fails if and only if the decoder reported an error, and it is
/// the last step of its session if and only if the decoder reported
/// success. An output region that is too small is no failure: the step asks
/// for more room.
pub proof fn lemma_outcomes(result: DecoderResult)
    ensures
        Decompress::outcome(result) is Err <==> result == DecoderResult::Error,
        Decompress::outcome(result) == Ok::<DeStatus, Error>(DeStatus::Finished) <==> result
            == DecoderResult::Success,
        result == DecoderResult::NeedsMoreOutput ==> Decompress::outcome(result) == Ok::<
            DeStatus,
            Error,
        >(DeStatus::NeedOutput),
        result == DecoderResult::NeedsMoreInput ==> Decompress::outcome(result) == Ok::<
            DeStatus,
            Error,
        >(DeStatus::NeedInput),
{
}

/// What decompression in one call returns, given what the decoder returned:
/// its result code, and the number of bytes that it wrote.
pub open spec fn decompress_buf_outcome(result: u32, size: usize) -> Result<usize, Error> {
    if result == 0 {
        Err(Error)
    } else {
        Ok(size)
    }
}

/// Ends a decompression in one call: the decoder was called on the whole
/// input and on `output`, returned `result`, and reported `size` bytes
/// written.
///
/// `output` is narrowed to the bytes written. The result is an error if and
/// only if the decoder reported one, and else the number of bytes written.
pub fn decompress_buf<'a>(output: &mut &'a mut [u8], result: u32, size: usize) -> (r: Result<
    usize,
    Error,
>)
    requires
        size <= old(output)@.len(),
    ensures
        r == decompress_buf_outcome(result, size),
        final(output)@ == old(output)@.take(size as int),
        final(*old(output))@ == final(*final(output))@ + old(output)@.skip(size as int),
{
    truncate_output(output, size);
    if result == codes::decoder_result_error() {
        Err(Error)
    } else {
        Ok(size)
    }
}

} // verus!
