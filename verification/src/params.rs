//! Filter quality and run-time resources of a converter.
//!
//! Both are plain values. Nothing here judges whether a setting is sensible:
//! every value is handed on as it was given, and the engine decides what it
//! makes of it.

use vstd::prelude::*;

use crate::binary::Binary64;
use crate::raw::{QualityCall, RawQualitySpec, RawRuntimeSpec};

verus! {

/// A named level of conversion quality.
#[derive(Clone, Copy, PartialEq, Eq, Structural, Debug)]
pub enum QualityRecipe {
    /// Cubic interpolation.
    Quick,
    /// 16 bits with a larger rolloff.
    Low,
    /// 16 bits with a medium rolloff.
    Medium,
    /// 16 bits.
    Bits16,
    /// 20 bits.
    Bits20,
    /// 24 bits.
    Bits24,
    /// 28 bits.
    Bits28,
    /// 32 bits.
    Bits32,
}

impl QualityRecipe {
    /// The engine's code for this recipe: its position in the list of
    /// recipes, counted from zero.
    pub open spec fn spec_to_raw(self) -> u64 {
        match self {
            QualityRecipe::Quick => 0,
            QualityRecipe::Low => 1,
            QualityRecipe::Medium => 2,
            QualityRecipe::Bits16 => 3,
            QualityRecipe::Bits20 => 4,
            QualityRecipe::Bits24 => 5,
            QualityRecipe::Bits28 => 6,
            QualityRecipe::Bits32 => 7,
        }
    }

    /// High quality: another name for [`QualityRecipe::Bits20`].
    pub fn high() -> (recipe: Self)
        ensures
            recipe == QualityRecipe::Bits20,
    {
        QualityRecipe::Bits20
    }

    /// Very high quality: another name for [`QualityRecipe::Bits28`].
    pub fn very_high() -> (recipe: Self)
        ensures
            recipe == QualityRecipe::Bits28,
    {
        QualityRecipe::Bits28
    }

    /// The engine's code for this recipe.
    pub fn to_raw(self) -> (code: u64)
        ensures
            code == self.spec_to_raw(),
    {
        match self {
            QualityRecipe::Quick => 0,
            QualityRecipe::Low => 1,
            QualityRecipe::Medium => 2,
            QualityRecipe::Bits16 => 3,
            QualityRecipe::Bits20 => 4,
            QualityRecipe::Bits24 => 5,
            QualityRecipe::Bits28 => 6,
            QualityRecipe::Bits32 => 7,
        }
    }
}

impl Default for QualityRecipe {
    /// High quality.
    fn default() -> (recipe: Self)
        ensures
            recipe == QualityRecipe::Bits20,
    {
        QualityRecipe::high()
    }
}

/// How much the filter may attenuate the upper end of the passband.
#[derive(Clone, Copy, PartialEq, Eq, Structural, Debug)]
pub enum Rolloff {
    /// At most 0.01 dB.
    Small,
    /// At most 0.35 dB.
    Medium,
    /// No rolloff, for a Chebyshev bandwidth.
    NoRolloff,
}

impl Rolloff {
    /// The engine's code for this rolloff, which occupies the two lowest bits
    /// of the quality flag word.
    pub open spec fn spec_to_raw(self) -> u8 {
        match self {
            Rolloff::Small => 0,
            Rolloff::Medium => 1,
            Rolloff::NoRolloff => 2,
        }
    }

    /// The engine's code for this rolloff.
    pub fn to_raw(self) -> (code: u8)
        ensures
            code == self.spec_to_raw(),
    {
        match self {
            Rolloff::Small => 0,
            Rolloff::Medium => 1,
            Rolloff::NoRolloff => 2,
        }
    }
}

impl Default for Rolloff {
    /// The small rolloff.
    fn default() -> (rolloff: Self)
        ensures
            rolloff == Rolloff::Small,
    {
        Rolloff::Small
    }
}

/// The bit of the quality flag word that asks for a more exact clock.
pub const HIGH_PRECISION_CLOCK_BIT: u8 = 8;

/// The bit of the quality flag word that asks for double-precision
/// arithmetic.
pub const DOUBLE_PRECISION_BIT: u8 = 16;

/// The bit of the quality flag word that asks for a converter whose ratio
/// can change while it runs.
pub const VARIABLE_RATE_BIT: u8 = 32;

/// The switches of a quality recipe.
#[derive(Clone, Copy, PartialEq, Eq, Structural, Debug)]
pub struct QualityFlags {
    /// Follow ratios that are not fractions of small numbers more exactly.
    pub high_precision_clock: bool,
    /// Compute in double precision even where the precision asked for does
    /// not need it.
    pub double_precision: bool,
    /// Let the ratio change while the converter runs.
    pub variable_rate: bool,
}

impl QualityFlags {
    /// The part of the quality flag word that these switches make up: the
    /// sum of the bits of the switches that are on.
    pub open spec fn spec_bits(self) -> u8 {
        ((if self.high_precision_clock {
            HIGH_PRECISION_CLOCK_BIT as int
        } else {
            0
        }) + (if self.double_precision {
            DOUBLE_PRECISION_BIT as int
        } else {
            0
        }) + (if self.variable_rate {
            VARIABLE_RATE_BIT as int
        } else {
            0
        })) as u8
    }

    /// The part of the quality flag word that these switches make up.
    pub fn bits(self) -> (bits: u8)
        ensures
            bits == self.spec_bits(),
    {
        let mut bits: u8 = 0;
        if self.high_precision_clock {
            bits = bits + HIGH_PRECISION_CLOCK_BIT;
        }
        if self.double_precision {
            bits = bits + DOUBLE_PRECISION_BIT;
        }
        if self.variable_rate {
            bits = bits + VARIABLE_RATE_BIT;
        }
        bits
    }
}

impl Default for QualityFlags {
    /// Every switch off.
    fn default() -> (flags: Self)
        ensures
            flags == (QualityFlags {
                high_precision_clock: false,
                double_precision: false,
                variable_rate: false,
            }),
    {
        QualityFlags { high_precision_clock: false, double_precision: false, variable_rate: false }
    }
}

/// The quality flag word of a rolloff and a set of switches: the rolloff's
/// code in the two lowest bits, and above them the bits of the switches.
pub open spec fn quality_flag_word(rolloff: Rolloff, flags: QualityFlags) -> u64 {
    (rolloff.spec_to_raw() + flags.spec_bits()) as u64
}

/// A quality flag word holds the rolloff's code in its two lowest bits, each
/// switch in the bit of its own, and nothing else.
pub proof fn lemma_quality_flag_word_parts(rolloff: Rolloff, flags: QualityFlags)
    ensures
        quality_flag_word(rolloff, flags) < 64,
        quality_flag_word(rolloff, flags) % 8 == rolloff.spec_to_raw(),
        (quality_flag_word(rolloff, flags) / 8) % 2 == 1 <==> flags.high_precision_clock,
        (quality_flag_word(rolloff, flags) / 16) % 2 == 1 <==> flags.double_precision,
        (quality_flag_word(rolloff, flags) / 32) % 2 == 1 <==> flags.variable_rate,
{
}

/// No rolloff and no choice of switches shares a flag word with another:
/// the word tells both.
pub proof fn lemma_quality_flag_word_injective(
    rolloff_a: Rolloff,
    flags_a: QualityFlags,
    rolloff_b: Rolloff,
    flags_b: QualityFlags,
)
    requires
        quality_flag_word(rolloff_a, flags_a) == quality_flag_word(rolloff_b, flags_b),
    ensures
        rolloff_a == rolloff_b,
        flags_a == flags_b,
{
}

/// The filter quality of a converter.
///
/// A quality is the engine's quality record. The engine works the record of
/// a recipe out itself: [`QualitySpec::configure`] gives the arguments to ask
/// it with, and [`QualitySpec::from_raw`] holds what it answered. Each
/// setting can then be read and replaced.
#[derive(Clone, Copy, Debug)]
pub struct QualitySpec {
    raw: RawQualitySpec,
}

impl View for QualitySpec {
    type V = RawQualitySpec;

    closed spec fn view(&self) -> RawQualitySpec {
        self.raw
    }
}

impl QualitySpec {
    /// The arguments that ask the engine for the record of a recipe, with
    /// the small rolloff and every switch off.
    pub fn new(recipe: QualityRecipe) -> (call: QualityCall)
        ensures
            call.recipe == recipe.spec_to_raw(),
            call.flags == 0,
    {
        Self::configure(recipe, Rolloff::default(), QualityFlags::default())
    }

    /// The arguments that ask the engine for the record of a recipe for a
    /// converter whose ratio can change while it runs: the small rolloff, and
    /// of the switches the variable rate alone.
    pub fn variable_rate(recipe: QualityRecipe) -> (call: QualityCall)
        ensures
            call.recipe == recipe.spec_to_raw(),
            call.flags == VARIABLE_RATE_BIT,
    {
        Self::configure(
            recipe,
            Rolloff::default(),
            QualityFlags {
                high_precision_clock: false,
                double_precision: false,
                variable_rate: true,
            },
        )
    }

    /// The arguments that ask the engine for the record of a recipe with the
    /// given rolloff and switches.
    pub fn configure(recipe: QualityRecipe, rolloff: Rolloff, flags: QualityFlags) -> (call:
        QualityCall)
        ensures
            call.recipe == recipe.spec_to_raw(),
            call.flags == quality_flag_word(rolloff, flags),
    {
        let switches = flags.bits();
        let code = rolloff.to_raw();
        assert(switches | code == switches + code) by (bit_vector)
            requires
                code < 4,
                switches == 0 || switches == 8 || switches == 16 || switches == 24 || switches
                    == 32 || switches == 40 || switches == 48 || switches == 56,
        ;
        let word: u8 = switches | code;
        QualityCall { recipe: recipe.to_raw(), flags: word as u64 }
    }

    /// The quality that the given record describes.
    pub fn from_raw(raw: RawQualitySpec) -> (quality: Self)
        ensures
            quality@ == raw,
    {
        QualitySpec { raw }
    }

    /// The engine's record of this quality.
    pub fn as_raw(&self) -> (raw: &RawQualitySpec)
        ensures
            *raw == self@,
    {
        &self.raw
    }

    /// Conversion precision, in bits; typically 20.
    pub fn precision(&self) -> (precision: Binary64)
        ensures
            precision == self@.precision,
    {
        self.raw.precision
    }

    /// Replaces the conversion precision and nothing else.
    pub fn set_precision(&mut self, precision: Binary64)
        ensures
            final(self)@ == (RawQualitySpec { precision, ..old(self)@ }),
    {
        self.raw.precision = precision;
    }

    /// This quality with the conversion precision replaced.
    pub fn with_precision(self, precision: Binary64) -> (quality: Self)
        ensures
            quality@ == (RawQualitySpec { precision, ..self@ }),
    {
        let mut quality = self;
        quality.set_precision(precision);
        quality
    }

    /// Phase response: 0 is minimum, 50 linear, 100 maximum; typically 50.
    pub fn phase_response(&self) -> (phase_response: Binary64)
        ensures
            phase_response == self@.phase_response,
    {
        self.raw.phase_response
    }

    /// Replaces the phase response and nothing else.
    pub fn set_phase_response(&mut self, phase_response: Binary64)
        ensures
            final(self)@ == (RawQualitySpec { phase_response, ..old(self)@ }),
    {
        self.raw.phase_response = phase_response;
    }

    /// This quality with the phase response replaced.
    pub fn with_phase_response(self, phase_response: Binary64) -> (quality: Self)
        ensures
            quality@ == (RawQualitySpec { phase_response, ..self@ }),
    {
        let mut quality = self;
        quality.set_phase_response(phase_response);
        quality
    }

    /// End of the band to preserve, where the Nyquist frequency is 1;
    /// typically 0.913.
    pub fn passband_end(&self) -> (passband_end: Binary64)
        ensures
            passband_end == self@.passband_end,
    {
        self.raw.passband_end
    }

    /// Replaces the end of the passband and nothing else.
    pub fn set_passband_end(&mut self, passband_end: Binary64)
        ensures
            final(self)@ == (RawQualitySpec { passband_end, ..old(self)@ }),
    {
        self.raw.passband_end = passband_end;
    }

    /// This quality with the end of the passband replaced.
    pub fn with_passband_end(self, passband_end: Binary64) -> (quality: Self)
        ensures
            quality@ == (RawQualitySpec { passband_end, ..self@ }),
    {
        let mut quality = self;
        quality.set_passband_end(passband_end);
        quality
    }

    /// Start of the band to reject, which controls aliasing and imaging and
    /// lies above the end of the passband; typically 1.
    pub fn stopband_begin(&self) -> (stopband_begin: Binary64)
        ensures
            stopband_begin == self@.stopband_begin,
    {
        self.raw.stopband_begin
    }

    /// Replaces the start of the stopband and nothing else.
    pub fn set_stopband_begin(&mut self, stopband_begin: Binary64)
        ensures
            final(self)@ == (RawQualitySpec { stopband_begin, ..old(self)@ }),
    {
        self.raw.stopband_begin = stopband_begin;
    }

    /// This quality with the start of the stopband replaced.
    pub fn with_stopband_begin(self, stopband_begin: Binary64) -> (quality: Self)
        ensures
            quality@ == (RawQualitySpec { stopband_begin, ..self@ }),
    {
        let mut quality = self;
        quality.set_stopband_begin(stopband_begin);
        quality
    }
}

/// How filter coefficients are interpolated for ratios that are not
/// fractions of small numbers.
#[derive(Clone, Copy, PartialEq, Eq, Structural, Debug)]
pub enum Interpolation {
    /// The engine chooses.
    Auto,
    /// Less computation, more memory.
    Low,
    /// More computation, less memory.
    High,
}

impl Interpolation {
    /// The engine's code for this strategy, which occupies the two lowest
    /// bits of the run-time flag word.
    pub open spec fn spec_to_raw(self) -> u64 {
        match self {
            Interpolation::Auto => 0,
            Interpolation::Low => 2,
            Interpolation::High => 3,
        }
    }

    /// The engine's code for this strategy.
    pub fn to_raw(self) -> (code: u64)
        ensures
            code == self.spec_to_raw(),
    {
        match self {
            Interpolation::Auto => 0,
            Interpolation::Low => 2,
            Interpolation::High => 3,
        }
    }
}

/// The strategy that a run-time flag word names in its two lowest bits. The
/// code 1 is assigned to no strategy and reads as the engine's own choice.
pub open spec fn interpolation_of(flags: u64) -> Interpolation {
    if flags % 4 == 2 {
        Interpolation::Low
    } else if flags % 4 == 3 {
        Interpolation::High
    } else {
        Interpolation::Auto
    }
}

/// A run-time flag word with its two lowest bits replaced by the code of a
/// strategy.
pub open spec fn with_interpolation_bits(flags: u64, interpolation: Interpolation) -> u64 {
    (flags - flags % 4 + interpolation.spec_to_raw()) as u64
}

/// A strategy written into a flag word is the strategy read from it, and
/// writing it leaves every bit above the two lowest as it was.
pub proof fn lemma_interpolation_round_trip(flags: u64, interpolation: Interpolation)
    ensures
        interpolation_of(with_interpolation_bits(flags, interpolation)) == interpolation,
        with_interpolation_bits(flags, interpolation) / 4 == flags / 4,
        with_interpolation_bits(flags, interpolation) == flags - flags % 4
            + interpolation.spec_to_raw(),
{
    assert(flags - flags % 4 == 4 * (flags / 4));
}

/// Writing a strategy over another leaves no trace of the first.
pub proof fn lemma_interpolation_overwrites(
    flags: u64,
    first: Interpolation,
    second: Interpolation,
)
    ensures
        with_interpolation_bits(with_interpolation_bits(flags, first), second)
            == with_interpolation_bits(flags, second),
{
    lemma_interpolation_round_trip(flags, first);
}

/// The smallest transform size of a new run-time record, as a base-two
/// logarithm.
pub const DEFAULT_LOG2_MIN_DFT_SIZE: u32 = 10;

/// The large transform size of a new run-time record, as a base-two
/// logarithm.
pub const DEFAULT_LOG2_LARGE_DFT_SIZE: u32 = 17;

/// The coefficient table size of a new run-time record, in kilobytes.
pub const DEFAULT_COEF_SIZE_KBYTES: u32 = 400;

/// The record of the resources that a converter has unless told otherwise,
/// for the given number of threads: transform sizes of 2^10 and 2^17, a
/// coefficient table of 400 kilobytes, and the engine's own choice of
/// interpolation.
pub open spec fn runtime_record(num_threads: u32) -> RawRuntimeSpec {
    RawRuntimeSpec {
        log2_min_dft_size: DEFAULT_LOG2_MIN_DFT_SIZE,
        log2_large_dft_size: DEFAULT_LOG2_LARGE_DFT_SIZE,
        coef_size_kbytes: DEFAULT_COEF_SIZE_KBYTES,
        num_threads,
        flags: 0,
    }
}

/// The run-time resources of a converter.
#[derive(Clone, Copy, Debug)]
pub struct RuntimeSpec {
    raw: RawRuntimeSpec,
}

impl View for RuntimeSpec {
    type V = RawRuntimeSpec;

    closed spec fn view(&self) -> RawRuntimeSpec {
        self.raw
    }
}

impl RuntimeSpec {
    /// The resources that a converter has unless told otherwise, for the
    /// given number of threads.
    pub fn new(num_threads: u32) -> (runtime: Self)
        ensures
            runtime@ == runtime_record(num_threads),
    {
        RuntimeSpec {
            raw: RawRuntimeSpec {
                log2_min_dft_size: DEFAULT_LOG2_MIN_DFT_SIZE,
                log2_large_dft_size: DEFAULT_LOG2_LARGE_DFT_SIZE,
                coef_size_kbytes: DEFAULT_COEF_SIZE_KBYTES,
                num_threads,
                flags: 0,
            },
        }
    }

    /// The resources that the given record describes.
    pub fn from_raw(raw: RawRuntimeSpec) -> (runtime: Self)
        ensures
            runtime@ == raw,
    {
        RuntimeSpec { raw }
    }

    /// The engine's record of these resources.
    pub fn as_raw(&self) -> (raw: &RawRuntimeSpec)
        ensures
            *raw == self@,
    {
        &self.raw
    }

    /// Base-two logarithm of the smallest transform size; typically 10.
    pub fn log2_min_dft_size(&self) -> (log2_min_dft_size: u32)
        ensures
            log2_min_dft_size == self@.log2_min_dft_size,
    {
        self.raw.log2_min_dft_size
    }

    /// Replaces the smallest transform size and nothing else.
    pub fn set_log2_min_dft_size(&mut self, log2_min_dft_size: u32)
        ensures
            final(self)@ == (RawRuntimeSpec { log2_min_dft_size, ..old(self)@ }),
    {
        self.raw.log2_min_dft_size = log2_min_dft_size;
    }

    /// These resources with the smallest transform size replaced.
    pub fn with_log2_min_dft_size(self, log2_min_dft_size: u32) -> (runtime: Self)
        ensures
            runtime@ == (RawRuntimeSpec { log2_min_dft_size, ..self@ }),
    {
        let mut runtime = self;
        runtime.set_log2_min_dft_size(log2_min_dft_size);
        runtime
    }

    /// Base-two logarithm of the size from which a transform counts as
    /// large; typically 17.
    pub fn log2_large_dft_size(&self) -> (log2_large_dft_size: u32)
        ensures
            log2_large_dft_size == self@.log2_large_dft_size,
    {
        self.raw.log2_large_dft_size
    }

    /// Replaces the large transform size and nothing else.
    pub fn set_log2_large_dft_size(&mut self, log2_large_dft_size: u32)
        ensures
            final(self)@ == (RawRuntimeSpec { log2_large_dft_size, ..old(self)@ }),
    {
        self.raw.log2_large_dft_size = log2_large_dft_size;
    }

    /// These resources with the large transform size replaced.
    pub fn with_log2_large_dft_size(self, log2_large_dft_size: u32) -> (runtime: Self)
        ensures
            runtime@ == (RawRuntimeSpec { log2_large_dft_size, ..self@ }),
    {
        let mut runtime = self;
        runtime.set_log2_large_dft_size(log2_large_dft_size);
        runtime
    }

    /// Size of the coefficient table in kilobytes, which counts where the
    /// engine chooses the interpolation; typically 400.
    pub fn coef_size_kbytes(&self) -> (coef_size_kbytes: u32)
        ensures
            coef_size_kbytes == self@.coef_size_kbytes,
    {
        self.raw.coef_size_kbytes
    }

    /// Replaces the size of the coefficient table and nothing else.
    pub fn set_coef_size_kbytes(&mut self, coef_size_kbytes: u32)
        ensures
            final(self)@ == (RawRuntimeSpec { coef_size_kbytes, ..old(self)@ }),
    {
        self.raw.coef_size_kbytes = coef_size_kbytes;
    }

    /// These resources with the size of the coefficient table replaced.
    pub fn with_coef_size_kbytes(self, coef_size_kbytes: u32) -> (runtime: Self)
        ensures
            runtime@ == (RawRuntimeSpec { coef_size_kbytes, ..self@ }),
    {
        let mut runtime = self;
        runtime.set_coef_size_kbytes(coef_size_kbytes);
        runtime
    }

    /// Number of threads: zero leaves the choice to the engine's
    /// environment, one is a single thread; typically 1.
    pub fn num_threads(&self) -> (num_threads: u32)
        ensures
            num_threads == self@.num_threads,
    {
        self.raw.num_threads
    }

    /// Replaces the number of threads and nothing else.
    pub fn set_num_threads(&mut self, num_threads: u32)
        ensures
            final(self)@ == (RawRuntimeSpec { num_threads, ..old(self)@ }),
    {
        self.raw.num_threads = num_threads;
    }

    /// These resources with the number of threads replaced.
    pub fn with_num_threads(self, num_threads: u32) -> (runtime: Self)
        ensures
            runtime@ == (RawRuntimeSpec { num_threads, ..self@ }),
    {
        let mut runtime = self;
        runtime.set_num_threads(num_threads);
        runtime
    }

    /// The interpolation strategy that the flag word names.
    pub fn interpolation(&self) -> (interpolation: Interpolation)
        ensures
            interpolation == interpolation_of(self@.flags),
    {
        let flags = self.raw.flags;
        let code = flags & 3;
        assert(flags & 3 == flags % 4) by (bit_vector);
        if code == 2 {
            Interpolation::Low
        } else if code == 3 {
            Interpolation::High
        } else {
            Interpolation::Auto
        }
    }

    /// Writes the interpolation strategy into the two lowest bits of the
    /// flag word and changes nothing else.
    pub fn set_interpolation(&mut self, interpolation: Interpolation)
        ensures
            final(self)@ == (RawRuntimeSpec {
                flags: with_interpolation_bits(old(self)@.flags, interpolation),
                ..old(self)@
            }),
            interpolation_of(final(self)@.flags) == interpolation,
    {
        let flags = self.raw.flags;
        let code = interpolation.to_raw();
        assert((flags & !3u64) | code == flags - flags % 4 + code) by (bit_vector)
            requires
                code < 4,
        ;
        proof {
            lemma_interpolation_round_trip(flags, interpolation);
        }
        self.raw.flags = (flags & !3u64) | code;
    }

    /// These resources with the interpolation strategy replaced.
    pub fn with_interpolation(self, interpolation: Interpolation) -> (runtime: Self)
        ensures
            runtime@ == (RawRuntimeSpec {
                flags: with_interpolation_bits(self@.flags, interpolation),
                ..self@
            }),
            interpolation_of(runtime@.flags) == interpolation,
    {
        let mut runtime = self;
        runtime.set_interpolation(interpolation);
        runtime
    }
}

impl Default for RuntimeSpec {
    /// The resources of [`RuntimeSpec::new`] with a single thread.
    fn default() -> (runtime: Self)
        ensures
            runtime@ == runtime_record(1),
    {
        Self::new(1)
    }
}

} // verus!
