use audio_tap::fft::{bin_ranges, chunk_size, DEFAULT_TRANSFORM_CAPACITY};
use audio_tap::listener::{AudioData, Listener};
use dasp::window::{Hanning, Window};
use rustfft::num_complex::Complex32;
use rustfft::FftPlanner;

#[test]
fn chunk_size_is_the_floor() {
    assert_eq!(chunk_size(10, 3), 3);
    assert_eq!(chunk_size(512, 512), 1);
    assert_eq!(chunk_size(7, 16), 0);
}

#[test]
fn bin_count_is_exactly_the_transform_size() {
    for n in [32usize, 33, 100, 512, 1024, DEFAULT_TRANSFORM_CAPACITY] {
        assert_eq!(bin_ranges(n, n).len(), n);
        assert_eq!(bin_ranges(50, n).len(), n);
        assert_eq!(bin_ranges(4 * n + 3, n).len(), n);
    }
}

#[test]
fn equal_length_frame_maps_one_sample_per_bin() {
    let n = 64;
    let ranges = bin_ranges(n, n);
    for (i, &(start, end)) in ranges.iter().enumerate() {
        assert_eq!((start, end), (i, i + 1));
    }
}

#[test]
fn long_frame_is_decimated_into_contiguous_chunks() {
    let ranges = bin_ranges(10, 3);
    assert_eq!(ranges, vec![(0, 3), (3, 6), (6, 9)]);
}

#[test]
fn barely_long_frame_keeps_one_sample_per_bin_and_drops_the_tail() {
    let ranges = bin_ranges(5, 4);
    assert_eq!(ranges, vec![(0, 1), (1, 2), (2, 3), (3, 4)]);
}

#[test]
fn short_frame_is_zero_padded() {
    let ranges = bin_ranges(3, 5);
    assert_eq!(ranges, vec![(0, 1), (1, 2), (2, 3), (3, 3), (3, 3)]);
}

/// The spectral pipeline a structured consumer runs on polled frames: the
/// verified bin layout decides which samples feed which transform bin; each
/// sample is Hanning-windowed, chunks are averaged, the forward transform
/// runs, and bin `i` of the output is the real part over `sqrt(size)`.
fn analyze(samples: &[f32], size: usize) -> Vec<f32> {
    let ranges = bin_ranges(samples.len(), size);
    let mut buffer: Vec<Complex32> = ranges
        .iter()
        .map(|&(start, end)| {
            if end > start {
                let sum: f32 = samples[start..end].iter().map(|&x| Hanning::window(x)).sum();
                Complex32::new(sum / (end - start) as f32, 0.0)
            } else {
                Complex32::new(0.0, 0.0)
            }
        })
        .collect();
    let mut planner = FftPlanner::new();
    let fft = planner.plan_fft_forward(size);
    fft.process(&mut buffer);
    let norm = (size as f32).sqrt();
    buffer.iter().map(|c| c.re / norm).collect()
}

/// A caller-defined tagged consumer: one variant passes raw frames through,
/// the other maintains the spectrum of the latest frame.
enum TapConsumer {
    Raw(Vec<u32>),
    Fft { size: usize, spectrum: Vec<f32> },
}

impl AudioData for TapConsumer {
    // The ghost half of the trait: a consumer outside the verified world
    // carries a unit model.
    type Model = ();

    fn model(&self) {}

    fn folded(_pre: (), _frame: vstd::seq::Seq<u32>) {}

    fn update(&mut self, frame: &Vec<u32>) {
        match self {
            TapConsumer::Raw(latest) => {
                latest.clear();
                latest.extend_from_slice(frame);
            },
            TapConsumer::Fft { size, spectrum } => {
                let samples: Vec<f32> = frame.iter().map(|&w| f32::from_bits(w)).collect();
                *spectrum = analyze(&samples, *size);
            },
        }
    }

    fn snapshot(&self) -> Self {
        match self {
            TapConsumer::Raw(latest) => TapConsumer::Raw(latest.clone()),
            TapConsumer::Fft { size, spectrum } => TapConsumer::Fft {
                size: *size,
                spectrum: spectrum.clone(),
            },
        }
    }
}

#[test]
fn sine_frames_peak_at_the_expected_bin() {
    let frame_len = 512usize;
    let cycles = 8usize;
    let size = DEFAULT_TRANSFORM_CAPACITY;

    let mut registry: Listener<TapConsumer> = Listener::new();
    registry
        .register("raw".to_string(), TapConsumer::Raw(Vec::new()))
        .unwrap();
    registry
        .register(
            "fft".to_string(),
            TapConsumer::Fft { size, spectrum: Vec::new() },
        )
        .unwrap();

    // 50 frames of a sine at `cycles` periods per frame; an integer cycle
    // count makes consecutive frames identical, as a steady tone would.
    let amplitude = 0.45f32;
    let frame: Vec<u32> = (0..frame_len)
        .map(|t| {
            let x = amplitude
                * (2.0 * std::f32::consts::PI * cycles as f32 * t as f32 / frame_len as f32).sin();
            x.to_bits()
        })
        .collect();
    for _ in 0..50 {
        registry.dispatch(&frame);
    }

    match registry.poll(&"raw".to_string()) {
        Some(TapConsumer::Raw(latest)) => assert_eq!(latest, frame),
        _ => panic!("raw consumer missing"),
    }

    let spectrum = match registry.poll(&"fft".to_string()) {
        Some(TapConsumer::Fft { spectrum, .. }) => spectrum,
        _ => panic!("fft consumer missing"),
    };
    assert_eq!(spectrum.len(), size);

    // The raised-cosine window is applied to the sample values themselves
    // and is even in its argument, so a tone at `f` drives the spectrum at
    // `2 f`: with `cycles` periods per frame and a transform `size / frame_len`
    // times longer, the peak lands at bin `2 * cycles * size / frame_len`.
    let expected = 2 * cycles * (size / frame_len);
    let search_from = 100usize;
    let mut peak = search_from;
    for i in search_from..size / 2 {
        if spectrum[i].abs() > spectrum[peak].abs() {
            peak = i;
        }
    }
    assert!(
        (peak as i64 - expected as i64).abs() <= 1,
        "peak at {} expected {}",
        peak,
        expected
    );
}

#[test]
fn all_zero_frame_keeps_its_bins_empty() {
    // The verified layout sends only in-range samples to each bin; with an
    // all-zero frame every averaged, windowed bin is zero before the
    // transform runs.
    let samples = vec![0.0f32; 300];
    let spectrum = analyze(&samples, 64);
    assert_eq!(spectrum.len(), 64);
    for v in spectrum {
        assert_eq!(v, 0.0);
    }
}
