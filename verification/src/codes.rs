//! The numbers that the brotli engine gives to its modes, operations,
//! parameters and decoder results, read from `brotli_sys`.
//!
//! Every function here hands out one constant of `brotli_sys`. Its contract
//! states the constant's value and is believed, not proved.

use vstd::prelude::*;

verus! {

/// `brotli_sys::BROTLI_DEFAULT_MODE`, the mode of an encoder that was given none: 0.
#[verifier::external_body]
pub(crate) fn default_mode() -> (c: u32)
    ensures
        c == 0,
{
    brotli_sys::BROTLI_DEFAULT_MODE
}

/// `brotli_sys::BROTLI_DEFAULT_QUALITY`, the quality of an encoder that was given none: 11.
#[verifier::external_body]
pub(crate) fn default_quality() -> (c: u32)
    ensures
        c == 11,
{
    brotli_sys::BROTLI_DEFAULT_QUALITY
}

/// `brotli_sys::BROTLI_DEFAULT_WINDOW`, the window bits of an encoder that was given none: 22.
#[verifier::external_body]
pub(crate) fn default_window() -> (c: u32)
    ensures
        c == 22,
{
    brotli_sys::BROTLI_DEFAULT_WINDOW
}

/// `brotli_sys::BROTLI_MODE_GENERIC`: 0.
#[verifier::external_body]
pub(crate) fn mode_generic() -> (c: u32)
    ensures
        c == 0,
{
    brotli_sys::BROTLI_MODE_GENERIC as u32
}

/// `brotli_sys::BROTLI_MODE_TEXT`: 1.
#[verifier::external_body]
pub(crate) fn mode_text() -> (c: u32)
    ensures
        c == 1,
{
    brotli_sys::BROTLI_MODE_TEXT as u32
}

/// `brotli_sys::BROTLI_MODE_FONT`: 2.
#[verifier::external_body]
pub(crate) fn mode_font() -> (c: u32)
    ensures
        c == 2,
{
    brotli_sys::BROTLI_MODE_FONT as u32
}

/// `brotli_sys::BROTLI_OPERATION_PROCESS`: 0.
#[verifier::external_body]
pub(crate) fn operation_process() -> (c: u32)
    ensures
        c == 0,
{
    brotli_sys::BROTLI_OPERATION_PROCESS as u32
}

/// `brotli_sys::BROTLI_OPERATION_FLUSH`: 1.
#[verifier::external_body]
pub(crate) fn operation_flush() -> (c: u32)
    ensures
        c == 1,
{
    brotli_sys::BROTLI_OPERATION_FLUSH as u32
}

/// `brotli_sys::BROTLI_OPERATION_FINISH`: 2.
#[verifier::external_body]
pub(crate) fn operation_finish() -> (c: u32)
    ensures
        c == 2,
{
    brotli_sys::BROTLI_OPERATION_FINISH as u32
}

/// `brotli_sys::BROTLI_OPERATION_EMIT_METADATA`: 3.
#[verifier::external_body]
pub(crate) fn operation_emit_metadata() -> (c: u32)
    ensures
        c == 3,
{
    brotli_sys::BROTLI_OPERATION_EMIT_METADATA as u32
}

/// `brotli_sys::BROTLI_PARAM_MODE`: 0.
#[verifier::external_body]
pub(crate) fn param_mode() -> (c: u32)
    ensures
        c == 0,
{
    brotli_sys::BROTLI_PARAM_MODE as u32
}

/// `brotli_sys::BROTLI_PARAM_QUALITY`: 1.
#[verifier::external_body]
pub(crate) fn param_quality() -> (c: u32)
    ensures
        c == 1,
{
    brotli_sys::BROTLI_PARAM_QUALITY as u32
}

/// `brotli_sys::BROTLI_PARAM_LGWIN`: 2.
#[verifier::external_body]
pub(crate) fn param_lgwin() -> (c: u32)
    ensures
        c == 2,
{
    brotli_sys::BROTLI_PARAM_LGWIN as u32
}

/// `brotli_sys::BROTLI_PARAM_LGBLOCK`: 3.
#[verifier::external_body]
pub(crate) fn param_lgblock() -> (c: u32)
    ensures
        c == 3,
{
    brotli_sys::BROTLI_PARAM_LGBLOCK as u32
}

/// `brotli_sys::BROTLI_DECODER_RESULT_ERROR`: 0.
#[verifier::external_body]
pub(crate) fn decoder_result_error() -> (c: u32)
    ensures
        c == 0,
{
    brotli_sys::BROTLI_DECODER_RESULT_ERROR as u32
}

/// `brotli_sys::BROTLI_DECODER_RESULT_SUCCESS`: 1.
#[verifier::external_body]
pub(crate) fn decoder_result_success() -> (c: u32)
    ensures
        c == 1,
{
    brotli_sys::BROTLI_DECODER_RESULT_SUCCESS as u32
}

/// `brotli_sys::BROTLI_DECODER_RESULT_NEEDS_MORE_INPUT`: 2.
#[verifier::external_body]
pub(crate) fn decoder_result_needs_more_input() -> (c: u32)
    ensures
        c == 2,
{
    brotli_sys::BROTLI_DECODER_RESULT_NEEDS_MORE_INPUT as u32
}

/// `brotli_sys::BROTLI_DECODER_RESULT_NEEDS_MORE_OUTPUT`: 3.
#[verifier::external_body]
pub(crate) fn decoder_result_needs_more_output() -> (c: u32)
    ensures
        c == 3,
{
    brotli_sys::BROTLI_DECODER_RESULT_NEEDS_MORE_OUTPUT as u32
}

} // verus!
