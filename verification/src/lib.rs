//! Streaming analysis core for color-coded audio waveform rendering.
//!
//! The crate models the discrete heart of the pipeline: 8-bit quantized
//! amplitude values, per-band summary bins, configuration validation, and the
//! scheduler that decides, sample by sample, when one bin ends and the next
//! begins. Floating-point signal processing (the biquad crossover filters and
//! the peak/RMS reduction) lives outside the verified core and feeds its
//! results into the types defined here.

mod stream;
mod waveform;

pub use stream::lemma_bin_yield;
pub use stream::lemma_bin_yield_whole;
pub use stream::lemma_flush_count;
pub use stream::lemma_sched_invariant;
pub use stream::sched_bin_samples;
pub use stream::sched_drained;
pub use stream::sched_flushes;
pub use stream::sched_pending;
pub use stream::BinScheduler;
pub use stream::ConfigError;
pub use stream::ThreeBandFilterFreqConfig;
pub use stream::WaveformFilterConfig;
pub use stream::DEFAULT_BINS_PER_SEC_MILLI;
pub use stream::DEFAULT_HIGH_HP_MILLIHZ;
pub use stream::DEFAULT_HIGH_LP_MILLIHZ;
pub use stream::DEFAULT_LOW_HP_MILLIHZ;
pub use stream::DEFAULT_LOW_LP_MILLIHZ;
pub use stream::DEFAULT_SAMPLE_RATE_MILLIHZ;
pub use stream::MAX_FREQ_MILLIHZ;
pub use stream::MAX_RATE_MILLIHZ;
pub use stream::MIN_FREQ_MILLIHZ;
pub use stream::MIN_SAMPLES_PER_BIN;
pub use waveform::lemma_code_round_trip;
pub use waveform::lemma_quantize_monotone;
pub use waveform::quantize_scaled;
pub use waveform::FilteredWaveformBin;
pub use waveform::FilteredWaveformVal;
pub use waveform::WaveformBin;
pub use waveform::WaveformVal;
pub use waveform::MAX_CODE;
