//! Stream configuration and the per-bin sample scheduler.
//!
//! A waveform stream is cut into bins of `samples_per_bin` samples, where
//! `samples_per_bin = max(sample_rate / bins_per_sec, MIN_SAMPLES_PER_BIN)`
//! may be fractional. The scheduler keeps the fractional residue exact by
//! working with the ratio `bin_len_num / bin_len_den` in integer ticks:
//! rates are given in thousandths (millihertz and bins per thousand seconds),
//! one incoming sample is worth `bin_len_den` ticks, and a bin completes when
//! the pending tick count reaches `bin_len_num`. The long-run average bin
//! length is then exactly `samples_per_bin`, with individual bins varying by
//! at most one sample and no drift.

use vstd::prelude::*;

verus! {

/// Smallest admitted number of samples per bin; the floor keeps a very high
/// requested bin rate (or a very low sample rate) from producing degenerate
/// sub-sample bins.
pub const MIN_SAMPLES_PER_BIN: u64 = 64;

/// Lowest admitted crossover frequency, in millihertz (20 Hz).
pub const MIN_FREQ_MILLIHZ: u32 = 20_000;

/// Highest admitted crossover frequency, in millihertz (20 kHz).
pub const MAX_FREQ_MILLIHZ: u32 = 20_000_000;

/// Highest admitted sample rate and bin rate, in thousandths per second.
pub const MAX_RATE_MILLIHZ: u64 = 1_000_000_000_000;

/// Default sample rate, in millihertz (44.1 kHz).
pub const DEFAULT_SAMPLE_RATE_MILLIHZ: u64 = 44_100_000;

/// Default bin rate, in bins per thousand seconds (150 bins per second).
pub const DEFAULT_BINS_PER_SEC_MILLI: u64 = 150_000;

/// Default low/mid crossover low-pass cutoff, in millihertz (200 Hz).
pub const DEFAULT_LOW_LP_MILLIHZ: u32 = 200_000;

/// Default low/mid crossover high-pass cutoff, in millihertz (160 Hz);
/// below the low-pass cutoff, so the mid band overlaps the lows.
pub const DEFAULT_LOW_HP_MILLIHZ: u32 = 160_000;

/// Default mid/high crossover low-pass cutoff, in millihertz (1.6 kHz);
/// above the high-pass cutoff, so the mid band overlaps the highs.
pub const DEFAULT_HIGH_LP_MILLIHZ: u32 = 1_600_000;

/// Default mid/high crossover high-pass cutoff, in millihertz (1.2 kHz).
pub const DEFAULT_HIGH_HP_MILLIHZ: u32 = 1_200_000;

/// Crossover cutoff frequencies of the three-band filter bank, in
/// millihertz. Each crossover is an overlapping low-pass/high-pass pair.
#[derive(Debug, Clone, Copy, PartialEq, Eq, Structural)]
pub struct ThreeBandFilterFreqConfig {
    /// Low/mid crossover: cutoff of the low band's low-pass.
    pub low_lp_millihz: u32,
    /// Low/mid crossover: cutoff of the mid band's high-pass.
    pub low_hp_millihz: u32,
    /// Mid/high crossover: cutoff of the mid band's low-pass.
    pub high_lp_millihz: u32,
    /// Mid/high crossover: cutoff of the high band's high-pass.
    pub high_hp_millihz: u32,
}

impl ThreeBandFilterFreqConfig {
    /// All four cutoffs lie in the audible range.
    pub open spec fn frequencies_in_range(self) -> bool {
        &&& MIN_FREQ_MILLIHZ <= self.low_lp_millihz <= MAX_FREQ_MILLIHZ
        &&& MIN_FREQ_MILLIHZ <= self.low_hp_millihz <= MAX_FREQ_MILLIHZ
        &&& MIN_FREQ_MILLIHZ <= self.high_lp_millihz <= MAX_FREQ_MILLIHZ
        &&& MIN_FREQ_MILLIHZ <= self.high_hp_millihz <= MAX_FREQ_MILLIHZ
    }

    /// The mid band overlaps the lows (`low_hp <= low_lp`), is non-empty
    /// (`low_lp < high_hp`), and overlaps the highs (`high_hp <= high_lp`).
    pub open spec fn crossovers_ordered(self) -> bool {
        &&& self.low_hp_millihz <= self.low_lp_millihz
        &&& self.low_lp_millihz < self.high_hp_millihz
        &&& self.high_hp_millihz <= self.high_lp_millihz
    }

    /// A configuration is admitted when its cutoffs are in range and ordered.
    pub open spec fn valid(self) -> bool {
        self.frequencies_in_range() && self.crossovers_ordered()
    }
}

impl Default for ThreeBandFilterFreqConfig {
    /// Crossovers at 160/200 Hz and 1.2/1.6 kHz.
    fn default() -> (r: Self)
        ensures
            r.low_lp_millihz == DEFAULT_LOW_LP_MILLIHZ,
            r.low_hp_millihz == DEFAULT_LOW_HP_MILLIHZ,
            r.high_lp_millihz == DEFAULT_HIGH_LP_MILLIHZ,
            r.high_hp_millihz == DEFAULT_HIGH_HP_MILLIHZ,
            r.valid(),
    {
        ThreeBandFilterFreqConfig {
            low_lp_millihz: DEFAULT_LOW_LP_MILLIHZ,
            low_hp_millihz: DEFAULT_LOW_HP_MILLIHZ,
            high_lp_millihz: DEFAULT_HIGH_LP_MILLIHZ,
            high_hp_millihz: DEFAULT_HIGH_HP_MILLIHZ,
        }
    }
}

/// Full configuration of a waveform analysis stream, with rates in
/// thousandths per second.
#[derive(Debug, Clone, Copy, PartialEq, Eq, Structural)]
pub struct WaveformFilterConfig {
    /// Sample rate, in millihertz.
    pub sample_rate_millihz: u64,
    /// Requested bin rate, in bins per thousand seconds.
    pub bins_per_sec_milli: u64,
    /// Crossover frequencies of the filter bank.
    pub filter_freqs: ThreeBandFilterFreqConfig,
}

impl WaveformFilterConfig {
    /// The sample rate is positive and within the admitted range.
    pub open spec fn valid_sample_rate(self) -> bool {
        0 < self.sample_rate_millihz <= MAX_RATE_MILLIHZ
    }

    /// The bin rate is positive and within the admitted range.
    pub open spec fn valid_bin_rate(self) -> bool {
        0 < self.bins_per_sec_milli <= MAX_RATE_MILLIHZ
    }

    /// A configuration is admitted when both rates and the crossover
    /// frequencies are.
    pub open spec fn valid(self) -> bool {
        self.valid_sample_rate() && self.valid_bin_rate() && self.filter_freqs.valid()
    }

    /// Numerator of the bin length `max(sample_rate / bins_per_sec,
    /// MIN_SAMPLES_PER_BIN)`, over the denominator `bins_per_sec_milli`.
    pub open spec fn bin_len_num(self) -> int {
        if self.sample_rate_millihz >= MIN_SAMPLES_PER_BIN * self.bins_per_sec_milli {
            self.sample_rate_millihz as int
        } else {
            MIN_SAMPLES_PER_BIN * self.bins_per_sec_milli
        }
    }

    /// Denominator of the bin length: ticks per incoming sample.
    pub open spec fn bin_len_den(self) -> int {
        self.bins_per_sec_milli as int
    }
}

impl Default for WaveformFilterConfig {
    /// 44.1 kHz, 150 bins per second, default crossovers.
    fn default() -> (r: Self)
        ensures
            r.sample_rate_millihz == DEFAULT_SAMPLE_RATE_MILLIHZ,
            r.bins_per_sec_milli == DEFAULT_BINS_PER_SEC_MILLI,
            r.filter_freqs.low_lp_millihz == DEFAULT_LOW_LP_MILLIHZ,
            r.filter_freqs.low_hp_millihz == DEFAULT_LOW_HP_MILLIHZ,
            r.filter_freqs.high_lp_millihz == DEFAULT_HIGH_LP_MILLIHZ,
            r.filter_freqs.high_hp_millihz == DEFAULT_HIGH_HP_MILLIHZ,
            r.valid(),
    {
        WaveformFilterConfig {
            sample_rate_millihz: DEFAULT_SAMPLE_RATE_MILLIHZ,
            bins_per_sec_milli: DEFAULT_BINS_PER_SEC_MILLI,
            filter_freqs: Default::default(),
        }
    }
}

/// A rejected stream configuration.
#[derive(Debug, Clone, Copy, PartialEq, Eq, Structural)]
pub enum ConfigError {
    /// The sample rate is zero or above the admitted maximum.
    SampleRateOutOfRange,
    /// The bin rate is zero or above the admitted maximum.
    BinRateOutOfRange,
    /// A crossover frequency lies outside the audible range.
    CrossoverOutOfRange,
    /// The crossover cutoffs are not ordered into overlapping bands.
    CrossoverOrdering,
}

/// Pending ticks after `n` samples of a scheduler with bin length `p / q`:
/// each sample first completes a bin if `p` ticks are pending (consuming
/// them), then adds its own `q` ticks.
pub open spec fn sched_pending(p: int, q: int, n: nat) -> int
    decreases n,
{
    if n == 0 {
        0
    } else if sched_pending(p, q, (n - 1) as nat) >= p {
        sched_pending(p, q, (n - 1) as nat) - p + q
    } else {
        sched_pending(p, q, (n - 1) as nat) + q
    }
}

/// Number of bins completed within the first `n` samples.
pub open spec fn sched_flushes(p: int, q: int, n: nat) -> int
    decreases n,
{
    if n == 0 {
        0
    } else if sched_pending(p, q, (n - 1) as nat) >= p {
        sched_flushes(p, q, (n - 1) as nat) + 1
    } else {
        sched_flushes(p, q, (n - 1) as nat)
    }
}

/// Samples accumulated into the current (incomplete) bin after `n` samples.
pub open spec fn sched_bin_samples(p: int, q: int, n: nat) -> int
    decreases n,
{
    if n == 0 {
        0
    } else if sched_pending(p, q, (n - 1) as nat) >= p {
        1
    } else {
        sched_bin_samples(p, q, (n - 1) as nat) + 1
    }
}

/// Total samples drained into completed bins within the first `n` samples.
pub open spec fn sched_drained(p: int, q: int, n: nat) -> int
    decreases n,
{
    if n == 0 {
        0
    } else if sched_pending(p, q, (n - 1) as nat) >= p {
        sched_drained(p, q, (n - 1) as nat) + sched_bin_samples(p, q, (n - 1) as nat)
    } else {
        sched_drained(p, q, (n - 1) as nat)
    }
}

/// Running bounds of the scheduler model: pending ticks stay within one
/// sample's worth of ticks of the bin length, every sample is accounted for
/// either in a completed bin or in the current one, and after at least one
/// sample the current bin is never empty.
pub proof fn lemma_sched_invariant(p: int, q: int, n: nat)
    requires
        1 <= q <= p,
    ensures
        0 <= sched_pending(p, q, n) < p + q,
        n >= 1 ==> q <= sched_pending(p, q, n),
        sched_pending(p, q, n) == n * q - sched_flushes(p, q, n) * p,
        0 <= sched_flushes(p, q, n),
        0 <= sched_bin_samples(p, q, n),
        n >= 1 ==> 1 <= sched_bin_samples(p, q, n),
        sched_bin_samples(p, q, n) * q <= sched_pending(p, q, n),
        0 <= sched_drained(p, q, n),
        sched_drained(p, q, n) + sched_bin_samples(p, q, n) == n,
    decreases n,
{
    if n == 0 {
        assert(sched_pending(p, q, n) == 0);
        assert(0int * q == 0) by (nonlinear_arith);
        assert(0int * p == 0) by (nonlinear_arith);
    } else {
        let m: nat = (n - 1) as nat;
        lemma_sched_invariant(p, q, m);
        let pm: int = sched_pending(p, q, m);
        let fm: int = sched_flushes(p, q, m);
        let bm: int = sched_bin_samples(p, q, m);
        assert(m * q + q == n * q) by (nonlinear_arith)
            requires
                m + 1 == n,
        ;
        if pm >= p {
            assert((fm + 1) * p == fm * p + p) by (nonlinear_arith);
            assert(1int * q == q) by (nonlinear_arith);
        } else {
            assert((bm + 1) * q == bm * q + q) by (nonlinear_arith);
        }
    }
}

/// Closed form for the number of completed bins: over `n >= 1` samples,
/// exactly `((n - 1) * q) / p` bins complete during sample processing.
pub proof fn lemma_flush_count(p: int, q: int, n: nat)
    requires
        1 <= q <= p,
        1 <= n,
    ensures
        sched_flushes(p, q, n) == ((n - 1) * q) / p,
{
    lemma_sched_invariant(p, q, n);
    let pending: int = sched_pending(p, q, n);
    let flushes: int = sched_flushes(p, q, n);
    assert((n - 1) * q == flushes * p + (pending - q)) by (nonlinear_arith)
        requires
            pending == n * q - flushes * p,
    ;
    vstd::arithmetic::div_mod::lemma_fundamental_div_mod_converse(
        (n - 1) * q,
        p,
        flushes,
        pending - q,
    );
}

/// Law: a stream of `n >= 1` samples completes `((n - 1) * q) / p` bins
/// during sample processing; the current bin always holds at least one more
/// sample, so the final flush yields exactly one further bin; and the sample
/// counts of the completed bins and of the current bin sum to exactly `n`.
pub proof fn lemma_bin_yield(p: int, q: int, n: nat)
    requires
        1 <= q <= p,
        1 <= n,
    ensures
        sched_flushes(p, q, n) == ((n - 1) * q) / p,
        1 <= sched_bin_samples(p, q, n),
        sched_drained(p, q, n) + sched_bin_samples(p, q, n) == n,
{
    lemma_sched_invariant(p, q, n);
    lemma_flush_count(p, q, n);
}

/// Law: when the bin length is a whole number `s = p / q` of samples that
/// does not divide `n`, the bins completed during sample processing number
/// exactly `n / s` rounded down, and the final flush adds the partial bin.
pub proof fn lemma_bin_yield_whole(p: int, q: int, n: nat)
    requires
        1 <= q <= p,
        1 <= n,
        p % q == 0,
        n as int % (p / q) != 0,
    ensures
        sched_flushes(p, q, n) == n as int / (p / q),
        1 <= sched_bin_samples(p, q, n),
        sched_drained(p, q, n) + sched_bin_samples(p, q, n) == n,
{
    lemma_sched_invariant(p, q, n);
    lemma_flush_count(p, q, n);
    let s: int = p / q;
    vstd::arithmetic::div_mod::lemma_fundamental_div_mod(p, q);
    assert(p == s * q);
    assert(1 <= s) by (nonlinear_arith)
        requires
            p == s * q,
            1 <= q <= p,
    ;
    vstd::arithmetic::div_mod::lemma_fundamental_div_mod(n as int, s);
    let k: int = n as int / s;
    let r: int = n as int % s;
    vstd::arithmetic::div_mod::lemma_mod_bound(n as int, s);
    assert(1 <= r < s);
    // (n - 1) * q == k * (s * q) + (r - 1) * q, with 0 <= (r - 1) * q < s * q
    assert((n - 1) * q == k * p + (r - 1) * q) by (nonlinear_arith)
        requires
            n as int == s * k + r,
            p == s * q,
    ;
    assert(0 <= (r - 1) * q < p) by (nonlinear_arith)
        requires
            p == s * q,
            1 <= q,
            1 <= r < s,
    ;
    vstd::arithmetic::div_mod::lemma_fundamental_div_mod_converse(
        (n - 1) * q,
        p,
        k,
        (r - 1) * q,
    );
}

/// Decides, sample by sample, when one waveform bin ends and the next
/// begins, and how many samples went into each. The fractional bin length is
/// kept exact as the tick ratio `bin_len_num / bin_len_den`.
pub struct BinScheduler {
    bin_len_num: u64,
    bin_len_den: u64,
    pending_ticks: u64,
    bin_samples: u64,
    steps: Ghost<nat>,
}

impl BinScheduler {
    #[verifier::type_invariant]
    spec fn inv(self) -> bool {
        &&& 1 <= self.bin_len_den <= MAX_RATE_MILLIHZ
        &&& MIN_SAMPLES_PER_BIN * self.bin_len_den <= self.bin_len_num
        &&& self.bin_len_num <= MIN_SAMPLES_PER_BIN * MAX_RATE_MILLIHZ
        &&& self.pending_ticks as int == sched_pending(
            self.bin_len_num as int,
            self.bin_len_den as int,
            self.steps@,
        )
        &&& self.bin_samples as int == sched_bin_samples(
            self.bin_len_num as int,
            self.bin_len_den as int,
            self.steps@,
        )
    }

    /// Ticks pending towards the next bin boundary.
    pub closed spec fn pending(self) -> u64 {
        self.pending_ticks
    }

    /// Samples accumulated into the current bin since the last completed one.
    pub closed spec fn samples_in_bin(self) -> u64 {
        self.bin_samples
    }

    /// Numerator of the bin length in ticks.
    pub closed spec fn samples_per_bin_num(self) -> u64 {
        self.bin_len_num
    }

    /// Denominator of the bin length: ticks per sample.
    pub closed spec fn samples_per_bin_den(self) -> u64 {
        self.bin_len_den
    }

    /// Samples scheduled so far.
    pub closed spec fn steps(self) -> nat {
        self.steps@
    }

    /// Validates a stream configuration and builds the scheduler for it.
    ///
    /// The bin length is `max(sample_rate / bins_per_sec,
    /// MIN_SAMPLES_PER_BIN)` samples, as the exact ratio of the returned
    /// numerator and denominator; the floor `MIN_SAMPLES_PER_BIN` is always
    /// enforced, so even a bin rate as high as the sample rate itself never
    /// yields a shorter bin.
    pub fn new(config: WaveformFilterConfig) -> (r: Result<BinScheduler, ConfigError>)
        ensures
            r is Ok <==> config.valid(),
            r matches Ok(s) ==> {
                &&& s.samples_per_bin_num() as int == config.bin_len_num()
                &&& s.samples_per_bin_den() as int == config.bin_len_den()
                &&& MIN_SAMPLES_PER_BIN * s.samples_per_bin_den() <= s.samples_per_bin_num()
                &&& s.pending() == 0
                &&& s.samples_in_bin() == 0
                &&& s.steps() == 0
            },
            !config.valid_sample_rate() ==> r == Err::<BinScheduler, ConfigError>(
                ConfigError::SampleRateOutOfRange,
            ),
            config.valid_sample_rate() && !config.valid_bin_rate() ==> r == Err::<
                BinScheduler,
                ConfigError,
            >(ConfigError::BinRateOutOfRange),
            config.valid_sample_rate() && config.valid_bin_rate()
                && !config.filter_freqs.frequencies_in_range() ==> r == Err::<
                BinScheduler,
                ConfigError,
            >(ConfigError::CrossoverOutOfRange),
            config.valid_sample_rate() && config.valid_bin_rate()
                && config.filter_freqs.frequencies_in_range()
                && !config.filter_freqs.crossovers_ordered() ==> r == Err::<
                BinScheduler,
                ConfigError,
            >(ConfigError::CrossoverOrdering),
    {
        if config.sample_rate_millihz == 0 || config.sample_rate_millihz > MAX_RATE_MILLIHZ {
            return Err(ConfigError::SampleRateOutOfRange);
        }
        if config.bins_per_sec_milli == 0 || config.bins_per_sec_milli > MAX_RATE_MILLIHZ {
            return Err(ConfigError::BinRateOutOfRange);
        }
        let freqs = config.filter_freqs;
        if freqs.low_lp_millihz < MIN_FREQ_MILLIHZ || freqs.low_lp_millihz > MAX_FREQ_MILLIHZ
            || freqs.low_hp_millihz < MIN_FREQ_MILLIHZ || freqs.low_hp_millihz > MAX_FREQ_MILLIHZ
            || freqs.high_lp_millihz < MIN_FREQ_MILLIHZ || freqs.high_lp_millihz > MAX_FREQ_MILLIHZ
            || freqs.high_hp_millihz < MIN_FREQ_MILLIHZ || freqs.high_hp_millihz
            > MAX_FREQ_MILLIHZ {
            return Err(ConfigError::CrossoverOutOfRange);
        }
        if freqs.low_hp_millihz > freqs.low_lp_millihz || freqs.low_lp_millihz
            >= freqs.high_hp_millihz || freqs.high_hp_millihz > freqs.high_lp_millihz {
            return Err(ConfigError::CrossoverOrdering);
        }
        let min_ticks: u64 = MIN_SAMPLES_PER_BIN * config.bins_per_sec_milli;
        let num: u64 = if config.sample_rate_millihz >= min_ticks {
            config.sample_rate_millihz
        } else {
            min_ticks
        };
        Ok(
            BinScheduler {
                bin_len_num: num,
                bin_len_den: config.bins_per_sec_milli,
                pending_ticks: 0,
                bin_samples: 0,
                steps: Ghost(0nat),
            },
        )
    }

    /// Schedules one incoming sample, flush first: when the pending ticks
    /// have reached the bin length, the current bin is completed and its
    /// sample count returned — the new sample then opens the next bin, so a
    /// completed bin never includes the sample that triggered it. Otherwise
    /// the sample joins the current bin and `None` is returned.
    pub fn add_sample(&mut self) -> (r: Option<u64>)
        ensures
            final(self).samples_per_bin_num() == old(self).samples_per_bin_num(),
            final(self).samples_per_bin_den() == old(self).samples_per_bin_den(),
            final(self).steps() == old(self).steps() + 1,
            final(self).pending() as int == sched_pending(
                old(self).samples_per_bin_num() as int,
                old(self).samples_per_bin_den() as int,
                final(self).steps(),
            ),
            final(self).samples_in_bin() as int == sched_bin_samples(
                old(self).samples_per_bin_num() as int,
                old(self).samples_per_bin_den() as int,
                final(self).steps(),
            ),
            old(self).pending() >= old(self).samples_per_bin_num() ==> {
                &&& r == Some(old(self).samples_in_bin())
                &&& old(self).samples_in_bin() >= 1
                &&& final(self).pending() == old(self).pending() - old(
                    self,
                ).samples_per_bin_num() + old(self).samples_per_bin_den()
                &&& final(self).samples_in_bin() == 1
            },
            old(self).pending() < old(self).samples_per_bin_num() ==> {
                &&& r is None
                &&& final(self).pending() == old(self).pending() + old(
                    self,
                ).samples_per_bin_den()
                &&& final(self).samples_in_bin() == old(self).samples_in_bin() + 1
            },
    {
        proof {
            use_type_invariant(&*self);
            lemma_sched_invariant(
                self.bin_len_num as int,
                self.bin_len_den as int,
                self.steps@,
            );
        }
        let ghost next: nat = self.steps@ + 1;
        if self.pending_ticks >= self.bin_len_num {
            let completed: u64 = self.bin_samples;
            proof {
                // A flush needs pending ticks, so at least one sample came in.
                assert(self.steps@ >= 1);
                assert(self.bin_samples >= 1);
            }
            *self = BinScheduler {
                bin_len_num: self.bin_len_num,
                bin_len_den: self.bin_len_den,
                pending_ticks: self.pending_ticks - self.bin_len_num + self.bin_len_den,
                bin_samples: 1,
                steps: Ghost(next),
            };
            Some(completed)
        } else {
            proof {
                let b: int = self.bin_samples as int;
                let q: int = self.bin_len_den as int;
                assert(b <= b * q) by (nonlinear_arith)
                    requires
                        0 <= b,
                        1 <= q,
                ;
            }
            *self = BinScheduler {
                bin_len_num: self.bin_len_num,
                bin_len_den: self.bin_len_den,
                pending_ticks: self.pending_ticks + self.bin_len_den,
                bin_samples: self.bin_samples + 1,
                steps: Ghost(next),
            };
            None
        }
    }

    /// Flushes the stream's final, possibly partial bin: the number of
    /// samples accumulated since the last completed bin, or `None` when no
    /// sample is pending.
    pub fn finish(self) -> (r: Option<u64>)
        ensures
            r == if self.samples_in_bin() > 0 {
                Some(self.samples_in_bin())
            } else {
                None::<u64>
            },
    {
        if self.bin_samples > 0 {
            Some(self.bin_samples)
        } else {
            None
        }
    }
}

} // verus!
