//! The compression session, and compression in one call.

use crate::drain::{drained, taken};
use crate::params::{CompressOp, CompressParams, Parameter};
use crate::report::EncoderReport;
use crate::status::{CoStatus, Error};
use crate::view::{advance_input, advance_output, passed, remainder, truncate_output};
use vstd::prelude::*;

verus! {

/// A compression session: the course of one brotli stream through the
/// encoder.
///
/// The encoder itself is driven from outside. After each call to it, a
/// method of the session takes what the encoder reported, moves the
/// caller's views and says whether the operation is complete. What the
/// session keeps is the operation that is still to be completed, with the
/// input that it left: the next step has to take up exactly that.
pub struct Compress {
    pending: Ghost<Option<(CompressOp, Seq<u8>)>>,
}

impl Compress {
    /// The operation that the last step left unfinished, and the input that
    /// remained of it; `None` where nothing is left to complete.
    pub closed spec fn pending(&self) -> Option<(CompressOp, Seq<u8>)> {
        self.pending@
    }

    /// Whether a step with this operation on this input may follow: either
    /// nothing is left to complete, or the step repeats the pending
    /// operation on the input that remained.
    pub open spec fn admits(&self, op: CompressOp, input: Seq<u8>) -> bool {
        self.pending() matches Some(p) ==> p == (op, input)
    }

    /// Whether an operation is left incomplete by a step that succeeded.
    ///
    /// `Process` never is. Any other operation is while input remains,
    /// while the encoder holds output back, and, for `Finish`, while the
    /// encoder has not ended the stream.
    pub open spec fn incomplete(op: CompressOp, report: EncoderReport) -> bool {
        op != CompressOp::Process && (report.available_in != 0 || report.has_more_output == 1 || (op
            == CompressOp::Finish && report.is_finished == 0))
    }

    /// What a step returns: the error if the encoder reported failure, and
    /// else whether the operation is complete.
    pub open spec fn outcome(op: CompressOp, report: EncoderReport) -> Result<CoStatus, Error> {
        if report.result == 0 {
            Err(Error)
        } else if Self::incomplete(op, report) {
            Ok(CoStatus::Unfinished)
        } else {
            Ok(CoStatus::Finished)
        }
    }

    /// A session at the start of a stream, with nothing to complete.
    pub fn new() -> (session: Compress)
        ensures
            session.pending() is None,
    {
        Compress { pending: Ghost(None) }
    }

    /// Whether an operation is complete after a step that succeeded, decided
    /// in this order: `Process` is; an operation with input left is not; one
    /// with output held back is not; `Finish` before the stream has ended is
    /// not; all else is.
    pub fn status(op: CompressOp, report: &EncoderReport) -> (s: CoStatus)
        ensures
            s == (if Self::incomplete(op, *report) {
                CoStatus::Unfinished
            } else {
                CoStatus::Finished
            }),
    {
        if op == CompressOp::Process {
            CoStatus::Finished
        } else if report.available_in != 0 {
            CoStatus::Unfinished
        } else if report.has_more_output == 1 {
            CoStatus::Unfinished
        } else if op == CompressOp::Finish && report.is_finished == 0 {
            CoStatus::Unfinished
        } else {
            CoStatus::Finished
        }
    }

    /// Ends a step of compression: the encoder was called with `op` on
    /// `input` and `output`, has written to the front of `output`, and
    /// `report` is what it reported.
    ///
    /// `input` is moved to the bytes that were not consumed and `output` to
    /// the bytes that still are to be filled, so each view shrinks by exactly
    /// what the encoder reports as consumed or written. The bytes written stay
    /// in place before the new output view. The views are moved on failure
    /// too.
    ///
    /// After `Unfinished` the same operation has to be repeated on the input
    /// as this step leaves it, with more room for output, until the result is
    /// `Finished`.
    pub fn compress<'a>(
        &mut self,
        op: CompressOp,
        input: &mut &[u8],
        output: &mut &'a mut [u8],
        report: EncoderReport,
    ) -> (r: Result<CoStatus, Error>)
        requires
            old(self).admits(op, old(input)@),
            report.fits(old(input)@.len(), old(output)@.len()),
        ensures
            r == Self::outcome(op, report),
            final(input)@ == remainder(old(input)@, report.available_in as nat),
            final(output)@ == remainder(old(output)@, report.available_out as nat),
            final(*old(output))@ == passed(old(output)@, report.available_out as nat)
                + final(*final(output))@,
            old(input)@.len() - final(input)@.len() == report.consumed(old(input)@.len()),
            old(output)@.len() - final(output)@.len() == report.written(old(output)@.len()),
            0 <= report.consumed(old(input)@.len()) <= old(input)@.len(),
            0 <= report.written(old(output)@.len()) <= old(output)@.len(),
            final(self).pending() == (if r == Ok::<CoStatus, Error>(CoStatus::Unfinished) {
                Some((op, final(input)@))
            } else {
                None
            }),
    {
        advance_input(input, report.available_in);
        advance_output(output, report.available_out);
        if report.result == 0 {
            self.pending = Ghost(None);
            return Err(Error);
        }
        let s = Self::status(op, &report);
        self.pending = Ghost(
            if s == CoStatus::Unfinished {
                Some((op, input@))
            } else {
                None
            },
        );
        Ok(s)
    }

    /// Hands out what the encoder handed over of the output that it held
    /// back, with `size_limit` the limit that was set for it (`None` for all
    /// there is).
    ///
    /// `chunk` is what the encoder handed over: what `take_request` asked
    /// for, or nothing where it asked for nothing. The result is `None`
    /// under a limit of zero, and `None` once the encoder has nothing left.
    pub fn take_output<'a>(&mut self, size_limit: Option<usize>, chunk: &'a [u8]) -> (out: Option<
        &'a [u8],
    >)
        ensures
            out is Some <==> drained(size_limit, chunk@) is Some,
            out matches Some(bytes) ==> bytes == chunk,
            final(self).pending() == old(self).pending(),
    {
        taken(size_limit, chunk)
    }

    /// The settings by which the parameters are applied to the encoder, in
    /// the order in which they are to be made: mode, quality, window bits,
    /// block bits.
    ///
    /// The encoder takes them before the first byte is processed; what it
    /// does with one that comes later, or with a value out of range, is its
    /// own affair.
    pub fn set_params(&mut self, params: &CompressParams) -> (settings: [(Parameter, u32); 4])
        ensures
            settings@ == params.spec_settings(),
            final(self).pending() == old(self).pending(),
    {
        params.settings()
    }
}

/// `Process` is complete after every step that succeeds, whatever input
/// remains and whatever the encoder holds back.
pub proof fn lemma_process_completes(report: EncoderReport)
    requires
        report.result != 0,
    ensures
        Compress::outcome(CompressOp::Process, report) == Ok::<CoStatus, Error>(CoStatus::Finished),
{
}

/// Any other operation is left unfinished by a step that succeeds while the
/// encoder holds output back: an output region that is too small delays the
/// end of the operation and loses nothing.
pub proof fn lemma_held_output_is_unfinished(op: CompressOp, report: EncoderReport)
    requires
        op != CompressOp::Process,
        report.result != 0,
        report.has_more_output == 1,
    ensures
        Compress::outcome(op, report) == Ok::<CoStatus, Error>(CoStatus::Unfinished),
{
}

/// An operation other than `Process` is reported complete only when all
/// input was consumed and the encoder holds nothing back, and `Finish` only
/// when the encoder has ended the stream as well.
pub proof fn lemma_finished_is_complete(op: CompressOp, report: EncoderReport)
    requires
        op != CompressOp::Process,
        Compress::outcome(op, report) == Ok::<CoStatus, Error>(CoStatus::Finished),
    ensures
        report.result != 0,
        report.available_in == 0,
        report.has_more_output != 1,
        op == CompressOp::Finish ==> report.is_finished != 0,
{
}

/// A session with an operation pending admits that operation on the input
/// that remained, and no other step.
pub proof fn lemma_pending_admits_its_own(
    session: Compress,
    op: CompressOp,
    rest: Seq<u8>,
    next_op: CompressOp,
    next_input: Seq<u8>,
)
    requires
        session.pending() == Some((op, rest)),
    ensures
        session.admits(next_op, next_input) <==> (next_op == op && next_input == rest),
{
}

/// What compression in one call returns, given what the encoder returned:
/// whether it succeeded, and the number of bytes that it wrote.
pub open spec fn compress_buf_outcome(result: i32, size: usize) -> Result<usize, Error> {
    if result == 0 {
        Err(Error)
    } else {
        Ok(size)
    }
}

/// Ends a compression in one call: the encoder was called with the
/// parameters' `encoder_args` on the whole input and on `output`, returned
/// `result`, and reported `size` bytes written.
///
/// `output` is narrowed to the bytes written. The result is an error if and
/// only if the encoder reported failure, and else the number of bytes
/// written.
pub fn compress_buf<'a>(output: &mut &'a mut [u8], result: i32, size: usize) -> (r: Result<
    usize,
    Error,
>)
    requires
        size <= old(output)@.len(),
    ensures
        r == compress_buf_outcome(result, size),
        final(output)@ == old(output)@.take(size as int),
        final(*old(output))@ == final(*final(output))@ + old(output)@.skip(size as int),
{
    truncate_output(output, size);
    if result == 0 {
        Err(Error)
    } else {
        Ok(size)
    }
}

} // verus!
