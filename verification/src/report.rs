//! What the engine reports after a call, as plain values.

use crate::codes;
use vstd::prelude::*;

verus! {

/// The results of a call to the decoder.
#[derive(Copy, Clone, Debug, PartialEq, Eq, Structural)]
pub enum DecoderResult {
    /// The input is no valid stream.
    Error,
    /// The stream was decoded to its end.
    Success,
    /// All input was used and the stream goes on.
    NeedsMoreInput,
    /// The output region is full and more is to be written.
    NeedsMoreOutput,
}

impl DecoderResult {
    /// The result that the engine numbers `code`, if there is one.
    pub open spec fn of_code(code: u32) -> Option<DecoderResult> {
        if code == 0 {
            Some(DecoderResult::Error)
        } else if code == 1 {
            Some(DecoderResult::Success)
        } else if code == 2 {
            Some(DecoderResult::NeedsMoreInput)
        } else if code == 3 {
            Some(DecoderResult::NeedsMoreOutput)
        } else {
            None
        }
    }

    /// Reads a result code of the decoder. `None` for a number that is none
    /// of the engine's four.
    pub fn from_code(code: u32) -> (r: Option<DecoderResult>)
        ensures
            r == Self::of_code(code),
    {
        if code == codes::decoder_result_error() {
            Some(DecoderResult::Error)
        } else if code == codes::decoder_result_success() {
            Some(DecoderResult::Success)
        } else if code == codes::decoder_result_needs_more_input() {
            Some(DecoderResult::NeedsMoreInput)
        } else if code == codes::decoder_result_needs_more_output() {
            Some(DecoderResult::NeedsMoreOutput)
        } else {
            None
        }
    }
}

/// What the decoder reports after a step on an input and an output region.
#[derive(Copy, Clone, Debug, PartialEq, Eq, Structural)]
pub struct DecoderReport {
    /// The result of the step.
    pub result: DecoderResult,
    /// How many bytes of the input region it left unread.
    pub available_in: usize,
    /// How many bytes of the output region it left unwritten.
    pub available_out: usize,
}

impl DecoderReport {
    /// The report is one on regions of these lengths: it leaves no more of
    /// a region than there was.
    pub open spec fn fits(self, input_len: nat, output_len: nat) -> bool {
        self.available_in <= input_len && self.available_out <= output_len
    }

    /// How many bytes the engine reports as consumed, of an input region
    /// of this length.
    pub open spec fn consumed(self, input_len: nat) -> int {
        input_len - self.available_in
    }

    /// How many bytes the engine reports as written, to an output region
    /// of this length.
    pub open spec fn written(self, output_len: nat) -> int {
        output_len - self.available_out
    }

    /// Whether the report is one on regions of these lengths.
    pub fn fits_in(&self, input_len: usize, output_len: usize) -> (b: bool)
        ensures
            b == self.fits(input_len as nat, output_len as nat),
    {
        self.available_in <= input_len && self.available_out <= output_len
    }
}

/// What the encoder reports after a step on an input and an output region.
///
/// The engine answers yes or no with an integer: 1 for yes, 0 for no.
#[derive(Copy, Clone, Debug, PartialEq, Eq, Structural)]
pub struct EncoderReport {
    /// Whether the step succeeded.
    pub result: i32,
    /// How many bytes of the input region it left unread.
    pub available_in: usize,
    /// How many bytes of the output region it left unwritten.
    pub available_out: usize,
    /// Whether the encoder holds output that was not handed out yet.
    pub has_more_output: i32,
    /// Whether the encoder has ended the stream.
    pub is_finished: i32,
}

impl EncoderReport {
    /// The report is one on regions of these lengths: it leaves no more of
    /// a region than there was.
    pub open spec fn fits(self, input_len: nat, output_len: nat) -> bool {
        self.available_in <= input_len && self.available_out <= output_len
    }

    /// How many bytes the engine reports as consumed, of an input region
    /// of this length.
    pub open spec fn consumed(self, input_len: nat) -> int {
        input_len - self.available_in
    }

    /// How many bytes the engine reports as written, to an output region
    /// of this length.
    pub open spec fn written(self, output_len: nat) -> int {
        output_len - self.available_out
    }

    /// Whether the report is one on regions of these lengths.
    pub fn fits_in(&self, input_len: usize, output_len: usize) -> (b: bool)
        ensures
            b == self.fits(input_len as nat, output_len as nat),
    {
        self.available_in <= input_len && self.available_out <= output_len
    }
}

} // verus!
