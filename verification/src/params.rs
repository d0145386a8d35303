//! The parameters of compression, and the operations of a compression session.

use crate::codes;
use vstd::arithmetic::power2::pow2;
use vstd::prelude::*;

verus! {

/// The modes of compression.
#[derive(Copy, Clone, Debug, PartialEq, Eq, Structural)]
pub enum CompressMode {
    /// The compressor knows nothing in advance about the input.
    Generic,
    /// The input is UTF-8 text.
    Text,
    /// The input is a font in WOFF 2.0.
    Font,
}

impl CompressMode {
    /// The number by which the engine knows the mode.
    pub open spec fn spec_code(self) -> u32 {
        match self {
            CompressMode::Generic => 0,
            CompressMode::Text => 1,
            CompressMode::Font => 2,
        }
    }

    /// The number by which the engine knows the mode.
    pub fn code(self) -> (c: u32)
        ensures
            c == self.spec_code(),
    {
        match self {
            CompressMode::Generic => codes::mode_generic(),
            CompressMode::Text => codes::mode_text(),
            CompressMode::Font => codes::mode_font(),
        }
    }
}

/// The operations of a compression session.
///
/// With any operation but `Process`, the input must not be altered and no
/// other operation used until the operation has completed. An operation may
/// have to be repeated with more room for output before it completes.
#[derive(Copy, Clone, Debug, PartialEq, Eq, Structural)]
pub enum CompressOp {
    /// Compress input data.
    Process,
    /// Compress input data and write out all that was given so far.
    Flush,
    /// Compress input data, write out all that was given so far and end the
    /// stream: nothing can be written after it.
    Finish,
    /// Write a metadata block: out-of-band data that leaves the main stream
    /// alone. A metadata block is at most 16 MiB long.
    EmitMetadata,
}

impl CompressOp {
    /// The number by which the engine knows the operation.
    pub open spec fn spec_code(self) -> u32 {
        match self {
            CompressOp::Process => 0,
            CompressOp::Flush => 1,
            CompressOp::Finish => 2,
            CompressOp::EmitMetadata => 3,
        }
    }

    /// The number by which the engine knows the operation.
    pub fn code(self) -> (c: u32)
        ensures
            c == self.spec_code(),
    {
        match self {
            CompressOp::Process => codes::operation_process(),
            CompressOp::Flush => codes::operation_flush(),
            CompressOp::Finish => codes::operation_finish(),
            CompressOp::EmitMetadata => codes::operation_emit_metadata(),
        }
    }
}

/// The parameters that the engine can be set: mode, quality, window bits and
/// block bits.
#[derive(Copy, Clone, Debug, PartialEq, Eq, Structural)]
pub enum Parameter {
    /// The mode of compression.
    Mode,
    /// The quality.
    Quality,
    /// The base 2 logarithm of the sliding window's size.
    Lgwin,
    /// The base 2 logarithm of the greatest input block's size.
    Lgblock,
}

impl Parameter {
    /// The number by which the engine knows the parameter.
    pub open spec fn spec_code(self) -> u32 {
        match self {
            Parameter::Mode => 0,
            Parameter::Quality => 1,
            Parameter::Lgwin => 2,
            Parameter::Lgblock => 3,
        }
    }

    /// The number by which the engine knows the parameter.
    pub fn code(self) -> (c: u32)
        ensures
            c == self.spec_code(),
    {
        match self {
            Parameter::Mode => codes::param_mode(),
            Parameter::Quality => codes::param_quality(),
            Parameter::Lgwin => codes::param_lgwin(),
            Parameter::Lgblock => codes::param_lgblock(),
        }
    }
}

/// Parameters of compression.
///
/// No range is enforced here: the engine rejects what it cannot use when the
/// parameters are applied.
#[derive(Clone, Debug)]
pub struct CompressParams {
    /// The mode, as the engine numbers it.
    mode: u32,
    /// Trades speed for density: the higher, the slower. The engine takes 0 to 11.
    quality: u32,
    /// Base 2 logarithm of the sliding window's size. The engine takes 10 to 24.
    lgwin: u32,
    /// Base 2 logarithm of the greatest input block's size. The engine takes
    /// 16 to 24, and 0 to choose by the quality.
    lgblock: u32,
}

/// What a set of parameters holds: the model that the contracts speak of.
pub struct ParamValues {
    /// The mode, as the engine numbers it.
    pub mode: u32,
    /// The quality.
    pub quality: u32,
    /// The window bits.
    pub lgwin: u32,
    /// The block bits.
    pub lgblock: u32,
}

impl View for CompressParams {
    type V = ParamValues;

    closed spec fn view(&self) -> ParamValues {
        ParamValues {
            mode: self.mode,
            quality: self.quality,
            lgwin: self.lgwin,
            lgblock: self.lgblock,
        }
    }
}

impl CompressParams {
    /// The default parameters: generic mode, quality 11, a window of 22 bits,
    /// and the block size left to the engine.
    pub fn new() -> (p: CompressParams)
        ensures
            p@ == (ParamValues { mode: 0, quality: 11, lgwin: 22, lgblock: 0 }),
    {
        CompressParams {
            mode: codes::default_mode(),
            quality: codes::default_quality(),
            lgwin: codes::default_window(),
            lgblock: 0,
        }
    }

    /// Sets the mode.
    pub fn mode(&mut self, mode: CompressMode) -> (p: &mut CompressParams)
        ensures
            p@ == (ParamValues { mode: mode.spec_code(), ..old(self)@ }),
            *final(self) == *final(p),
    {
        self.mode = mode.code();
        self
    }

    /// Sets the quality.
    pub fn quality(&mut self, quality: u32) -> (p: &mut CompressParams)
        ensures
            p@ == (ParamValues { quality: quality, ..old(self)@ }),
            *final(self) == *final(p),
    {
        self.quality = quality;
        self
    }

    /// Sets the base 2 logarithm of the sliding window's size.
    pub fn lgwin(&mut self, lgwin: u32) -> (p: &mut CompressParams)
        ensures
            p@ == (ParamValues { lgwin: lgwin, ..old(self)@ }),
            *final(self) == *final(p),
    {
        self.lgwin = lgwin;
        self
    }

    /// Sets the base 2 logarithm of the greatest input block's size; 0 leaves
    /// the choice to the engine.
    pub fn lgblock(&mut self, lgblock: u32) -> (p: &mut CompressParams)
        ensures
            p@ == (ParamValues { lgblock: lgblock, ..old(self)@ }),
            *final(self) == *final(p),
    {
        self.lgblock = lgblock;
        self
    }

    /// The settings by which the parameters are applied to an encoder, in
    /// the order in which they are to be made.
    pub open spec fn spec_settings(&self) -> Seq<(Parameter, u32)> {
        seq![
            (Parameter::Mode, self@.mode),
            (Parameter::Quality, self@.quality),
            (Parameter::Lgwin, self@.lgwin),
            (Parameter::Lgblock, self@.lgblock),
        ]
    }

    /// The settings by which the parameters are applied to an encoder, in
    /// the order in which they are to be made: mode, quality, window bits,
    /// block bits.
    pub fn settings(&self) -> (settings: [(Parameter, u32); 4])
        ensures
            settings@ == self.spec_settings(),
    {
        let settings = [
            (Parameter::Mode, self.mode),
            (Parameter::Quality, self.quality),
            (Parameter::Lgwin, self.lgwin),
            (Parameter::Lgblock, self.lgblock),
        ];
        assert(settings@ =~= self.spec_settings());
        settings
    }

    /// What the encoder is handed for a compression in one call: the
    /// quality and the window bits, each as a signed number, and the mode.
    /// The block bits have no part in it.
    pub fn encoder_args(&self) -> (args: (i32, i32, u32))
        ensures
            args == (self@.quality as i32, self@.lgwin as i32, self@.mode),
    {
        let quality = #[verifier::truncate] (self.quality as i32);
        let lgwin = #[verifier::truncate] (self.lgwin as i32);
        (quality, lgwin, self.mode)
    }

    /// The block size in bytes: 2 to the power of the block bits.
    #[inline]
    pub fn get_lgblock_readable(&self) -> (n: usize)
        requires
            self@.lgblock < usize::BITS,
        ensures
            n == pow2(self@.lgblock as nat),
    {
        pow2_usize(self.lgblock)
    }

    /// The block bits.
    #[inline]
    pub fn get_lgblock(&self) -> (b: u32)
        ensures
            b == self@.lgblock,
    {
        self.lgblock
    }

    /// The window size in bytes: 2 to the power of the window bits.
    #[inline]
    pub fn get_lgwin_readable(&self) -> (n: usize)
        requires
            self@.lgwin < usize::BITS,
        ensures
            n == pow2(self@.lgwin as nat),
    {
        pow2_usize(self.lgwin)
    }

    /// The window bits.
    #[inline]
    pub fn get_lgwin(&self) -> (b: u32)
        ensures
            b == self@.lgwin,
    {
        self.lgwin
    }
}

/// 2 to the power of `bits`, by a shift.
fn pow2_usize(bits: u32) -> (n: usize)
    requires
        bits < usize::BITS,
    ensures
        n == pow2(bits as nat),
{
    let shift: usize = bits as usize;
    proof {
        vstd::bits::lemma_usize_pow2_no_overflow(bits as nat);
        vstd::bits::lemma_usize_shl_is_mul(1usize, shift);
    }
    1usize << shift
}

} // verus!
