//! End-to-end runs of the analysis pipeline: the real biquad crossover
//! filters and the floating-point peak/RMS reduction, driven by the verified
//! scheduler and quantized through the verified saturating encoder.

use audio_viz::BinScheduler;
use audio_viz::FilteredWaveformBin;
use audio_viz::WaveformBin;
use audio_viz::WaveformFilterConfig;
use audio_viz::WaveformVal;
use biquad::Biquad;
use biquad::Coefficients;
use biquad::DirectForm2Transposed;
use biquad::Hertz;
use biquad::Q_BUTTERWORTH_F32;
use biquad::Type;

struct Bank {
    low_lp: [DirectForm2Transposed<f32>; 2],
    mid_bp: [DirectForm2Transposed<f32>; 2],
    high_hp: [DirectForm2Transposed<f32>; 2],
}

fn stage(kind: Type<f32>, fs_hz: f32, f0_hz: f32) -> DirectForm2Transposed<f32> {
    let fs = Hertz::<f32>::from_hz(fs_hz).unwrap();
    let f0 = Hertz::<f32>::from_hz(f0_hz).unwrap();
    DirectForm2Transposed::<f32>::new(
        Coefficients::<f32>::from_params(kind, fs, f0, Q_BUTTERWORTH_F32).unwrap(),
    )
}

fn default_bank(fs_hz: f32) -> Bank {
    let low_lp = stage(Type::LowPass, fs_hz, 200.0);
    let low_hp = stage(Type::HighPass, fs_hz, 160.0);
    let high_lp = stage(Type::LowPass, fs_hz, 1600.0);
    let high_hp = stage(Type::HighPass, fs_hz, 1200.0);
    Bank {
        low_lp: [low_lp, low_lp],
        mid_bp: [low_hp, high_lp],
        high_hp: [high_hp, high_hp],
    }
}

fn run_bank(bank: &mut Bank, sample: f32) -> (f32, f32, f32, f32) {
    let all = sample;
    let low = bank.low_lp.iter_mut().fold(all, |s, f| f.run(s));
    let mid = bank.mid_bp.iter_mut().fold(all, |s, f| f.run(s));
    let high = bank.high_hp.iter_mut().fold(all, |s, f| f.run(s));
    (all, low, mid, high)
}

#[derive(Default, Clone, Copy)]
struct Acc {
    peak: f32,
    rms_sum: f64,
}

impl Acc {
    fn add(&mut self, sample: f32) {
        let sample_f64 = f64::from(sample);
        self.peak = self.peak.max(sample.abs());
        self.rms_sum += sample_f64 * sample_f64;
    }

    fn finish(self, rms_div: f64) -> WaveformBin {
        let energy = ((self.rms_sum / rms_div).sqrt() * std::f64::consts::SQRT_2).min(1.0);
        WaveformBin {
            peak: quantize(self.peak),
            energy: quantize(energy as f32),
        }
    }
}

fn quantize(val: f32) -> WaveformVal {
    assert!(val >= 0.0);
    WaveformVal::from_scaled((val * 256.0) as u32)
}

struct Pipeline {
    scheduler: BinScheduler,
    bank: Bank,
    accs: [Acc; 4],
}

impl Pipeline {
    fn new(config: WaveformFilterConfig) -> Pipeline {
        Pipeline {
            scheduler: BinScheduler::new(config).unwrap(),
            bank: default_bank(config.sample_rate_millihz as f32 / 1000.0),
            accs: [Acc::default(); 4],
        }
    }

    fn finish_bin(&mut self, count: u64) -> FilteredWaveformBin {
        let rms_div = count as f64;
        let accs = self.accs;
        self.accs = [Acc::default(); 4];
        FilteredWaveformBin {
            all: accs[0].finish(rms_div),
            low: accs[1].finish(rms_div),
            mid: accs[2].finish(rms_div),
            high: accs[3].finish(rms_div),
        }
    }

    fn add_sample(&mut self, sample: f32) -> Option<FilteredWaveformBin> {
        let completed = match self.scheduler.add_sample() {
            Some(count) => Some(self.finish_bin(count)),
            None => None,
        };
        let (all, low, mid, high) = run_bank(&mut self.bank, sample);
        self.accs[0].add(all);
        self.accs[1].add(low);
        self.accs[2].add(mid);
        self.accs[3].add(high);
        completed
    }

    fn finish(self) -> Option<FilteredWaveformBin> {
        let Pipeline {
            scheduler,
            bank: _,
            accs,
        } = self;
        scheduler.finish().map(|count| {
            let rms_div = count as f64;
            FilteredWaveformBin {
                all: accs[0].finish(rms_div),
                low: accs[1].finish(rms_div),
                mid: accs[2].finish(rms_div),
                high: accs[3].finish(rms_div),
            }
        })
    }
}

fn assert_silent(bin: &FilteredWaveformBin) {
    assert!(bin.peak().channel_max().is_zero());
    assert!(bin.energy().channel_max().is_zero());
}

#[test]
fn zero_samples_give_zero_bins() {
    let mut pipeline = Pipeline::new(WaveformFilterConfig::default());
    let mut bins: Vec<FilteredWaveformBin> = Vec::new();
    for _ in 0..1000 {
        if let Some(bin) = pipeline.add_sample(0.0) {
            bins.push(bin);
        }
    }
    let last = pipeline.finish().unwrap();
    // 1000 samples at 294 per bin: three complete bins plus the final flush.
    assert_eq!(bins.len(), 3);
    for bin in &bins {
        assert_silent(bin);
    }
    assert_silent(&last);
}

#[test]
fn mid_band_sinusoid_passes_mid_and_is_attenuated_elsewhere() {
    let mut pipeline = Pipeline::new(WaveformFilterConfig::default());
    let sample_rate: f32 = 44_100.0;
    let freq: f32 = 550.0;
    let mut bins: Vec<FilteredWaveformBin> = Vec::new();
    for i in 0..44_100u32 {
        let phase = 2.0 * std::f32::consts::PI * freq * (i as f32) / sample_rate;
        if let Some(bin) = pipeline.add_sample(phase.sin()) {
            bins.push(bin);
        }
    }
    let last = pipeline.finish().unwrap();
    bins.push(last);
    // One second at 150 bins per second.
    assert_eq!(bins.len(), 150);
    // After the filters stabilize, the mid band carries nearly the full
    // peak while the low and high bands are attenuated across their
    // crossovers.
    for bin in bins.iter().skip(30) {
        let peak = bin.peak();
        assert!(u8::from(peak.all) >= 240);
        assert!(u8::from(peak.mid) >= 230);
        assert!(u8::from(peak.low) <= 25);
        assert!(u8::from(peak.high) <= 25);
        let energy = bin.energy();
        assert!(u8::from(energy.mid) >= 230);
    }
}
