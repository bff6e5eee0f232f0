//! Quantized amplitude values and per-band waveform bins.

use vstd::prelude::*;

verus! {

/// Largest quantized code; it decodes to an amplitude of exactly 1.
pub const MAX_CODE: u8 = 255;

/// An 8-bit fixed-point encoding of an amplitude in `0..=1`.
///
/// A code `c` stands for the amplitude `c / 255`, so code 0 is exactly 0 and
/// code 255 is exactly 1. Encoding scales an amplitude by 256, truncates, and
/// saturates at 255; [`WaveformVal::from_scaled`] performs the integer half of
/// that conversion.
#[derive(Debug, Clone, Copy, PartialEq, Eq, Structural, PartialOrd, Ord)]
pub struct WaveformVal(pub u8);

/// The code that a pre-scaled amplitude quantizes to: saturation at 255.
pub open spec fn quantize_scaled(scaled: int) -> int {
    if scaled > MAX_CODE as int {
        MAX_CODE as int
    } else {
        scaled
    }
}

impl WaveformVal {
    /// Quantizes an amplitude that has already been scaled by 256 and
    /// truncated to an integer, saturating at the largest code.
    pub fn from_scaled(scaled: u32) -> (r: Self)
        ensures
            r.0 == quantize_scaled(scaled as int),
    {
        if scaled > MAX_CODE as u32 {
            WaveformVal(MAX_CODE)
        } else {
            WaveformVal(scaled as u8)
        }
    }

    /// Whether this value is the zero amplitude.
    pub fn is_zero(self) -> (r: bool)
        ensures
            r == (self.0 == 0),
    {
        self.0 == 0
    }
}

impl From<WaveformVal> for u8 {
    fn from(value: WaveformVal) -> (r: u8)
        ensures
            r == value.0,
    {
        value.0
    }
}

impl vstd::std_specs::convert::FromSpecImpl<WaveformVal> for u8 {
    open spec fn obeys_from_spec() -> bool {
        true
    }

    open spec fn from_spec(value: WaveformVal) -> u8 {
        value.0
    }
}

impl Default for WaveformVal {
    /// The zero amplitude.
    fn default() -> (r: Self)
        ensures
            r.0 == 0,
    {
        WaveformVal(0)
    }
}

/// One quantized value per frequency band: the full-range signal and its
/// low, mid and high components.
#[derive(Debug, Clone, Copy)]
pub struct FilteredWaveformVal {
    /// Full-range (unfiltered) signal.
    pub all: WaveformVal,
    /// Low band.
    pub low: WaveformVal,
    /// Mid band.
    pub mid: WaveformVal,
    /// High band.
    pub high: WaveformVal,
}

impl FilteredWaveformVal {
    /// Largest of the four band codes.
    pub open spec fn channel_max_spec(self) -> int {
        let m1: u8 = if self.low.0 >= self.all.0 {
            self.low.0
        } else {
            self.all.0
        };
        let m2: u8 = if self.mid.0 >= m1 {
            self.mid.0
        } else {
            m1
        };
        if self.high.0 >= m2 {
            self.high.0 as int
        } else {
            m2 as int
        }
    }

    /// Largest of the four band values. When the spectral color is
    /// brightness-bounded by the full-range value, this is the chroma
    /// normalization denominator, and the color is pure black exactly when
    /// this value is zero.
    pub fn channel_max(self) -> (r: WaveformVal)
        ensures
            r.0 == self.channel_max_spec(),
    {
        let mut m: u8 = self.all.0;
        if self.low.0 >= m {
            m = self.low.0;
        }
        if self.mid.0 >= m {
            m = self.mid.0;
        }
        if self.high.0 >= m {
            m = self.high.0;
        }
        WaveformVal(m)
    }
}

impl Default for FilteredWaveformVal {
    /// Zero amplitude in every band.
    fn default() -> (r: Self)
        ensures
            r.all.0 == 0,
            r.low.0 == 0,
            r.mid.0 == 0,
            r.high.0 == 0,
    {
        FilteredWaveformVal {
            all: WaveformVal(0),
            low: WaveformVal(0),
            mid: WaveformVal(0),
            high: WaveformVal(0),
        }
    }
}

/// Summary of one frequency band over one time bin.
#[derive(Debug, Clone, Copy)]
pub struct WaveformBin {
    /// Clamped absolute peak amplitude over the bin's samples.
    pub peak: WaveformVal,
    /// Clamped and scaled RMS amplitude over the bin's samples.
    pub energy: WaveformVal,
}

impl Default for WaveformBin {
    /// An all-zero (silent) band summary.
    fn default() -> (r: Self)
        ensures
            r.peak.0 == 0,
            r.energy.0 == 0,
    {
        WaveformBin {
            peak: WaveformVal(0),
            energy: WaveformVal(0),
        }
    }
}

/// Summary of one time bin across all four bands; the externally visible
/// unit of a waveform, immutable once produced.
#[derive(Debug, Clone)]
pub struct FilteredWaveformBin {
    /// Full-range (unfiltered) signal.
    pub all: WaveformBin,
    /// Low band.
    pub low: WaveformBin,
    /// Mid band.
    pub mid: WaveformBin,
    /// High band.
    pub high: WaveformBin,
}

impl FilteredWaveformBin {
    /// The four bands' peak values.
    pub fn peak(&self) -> (r: FilteredWaveformVal)
        ensures
            r.all == self.all.peak,
            r.low == self.low.peak,
            r.mid == self.mid.peak,
            r.high == self.high.peak,
    {
        FilteredWaveformVal {
            all: self.all.peak,
            low: self.low.peak,
            mid: self.mid.peak,
            high: self.high.peak,
        }
    }

    /// The four bands' scaled RMS values.
    pub fn energy(&self) -> (r: FilteredWaveformVal)
        ensures
            r.all == self.all.energy,
            r.low == self.low.energy,
            r.mid == self.mid.energy,
            r.high == self.high.energy,
    {
        FilteredWaveformVal {
            all: self.all.energy,
            low: self.low.energy,
            mid: self.mid.energy,
            high: self.high.energy,
        }
    }
}

impl Default for FilteredWaveformBin {
    /// An all-zero (silent) bin.
    fn default() -> (r: Self)
        ensures
            r.all.peak.0 == 0,
            r.all.energy.0 == 0,
            r.low.peak.0 == 0,
            r.low.energy.0 == 0,
            r.mid.peak.0 == 0,
            r.mid.energy.0 == 0,
            r.high.peak.0 == 0,
            r.high.energy.0 == 0,
    {
        FilteredWaveformBin {
            all: Default::default(),
            low: Default::default(),
            mid: Default::default(),
            high: Default::default(),
        }
    }
}

/// Quantization is monotonic: a larger pre-scaled amplitude never yields a
/// smaller code.
pub proof fn lemma_quantize_monotone(a: int, b: int)
    requires
        a <= b,
    ensures
        quantize_scaled(a) <= quantize_scaled(b),
{
}

/// Decoding a code `c` yields the amplitude `c / 255`; re-encoding scales that
/// amplitude by 256 and truncates, which lands on `(c * 256) / 255`. This law
/// states that the quantization of that integer is `c` again: every code
/// round-trips exactly through decode and encode.
pub proof fn lemma_code_round_trip(c: u8)
    ensures
        quantize_scaled((c as int * 256) / 255) == c,
{
    if c < 255 {
        vstd::arithmetic::div_mod::lemma_fundamental_div_mod_converse(
            c as int * 256,
            255,
            c as int,
            c as int,
        );
    } else {
        assert(c as int * 256 == 256 * 255 + 0);
        vstd::arithmetic::div_mod::lemma_fundamental_div_mod_converse(
            c as int * 256,
            255,
            256,
            0,
        );
    }
}

} // verus!
