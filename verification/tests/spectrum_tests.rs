use alias_engine::params::{DomainError, FFTSize};
use alias_engine::spectral::{bin_index_table, resolve_fft_size, signed_bin_index};

use rustfft::num_complex::Complex;
use rustfft::FftPlanner;

#[test]
fn auto_size_is_twenty_samples_per_hertz_rounded_even() {
    assert_eq!(resolve_fft_size(FFTSize::Auto, 10000), Ok(200));
    assert_eq!(resolve_fft_size(FFTSize::Auto, 20000), Ok(400));
    // 10.01 Hz gives a base of 200 (200.2 rounded down), already even.
    assert_eq!(resolve_fft_size(FFTSize::Auto, 10010), Ok(200));
    // 10.05 Hz gives an odd base of 201, rounded up to 202.
    assert_eq!(resolve_fft_size(FFTSize::Auto, 10050), Ok(202));
}

#[test]
fn custom_size_is_rounded_up_to_even() {
    assert_eq!(resolve_fft_size(FFTSize::Custom(101), 10000), Ok(102));
    assert_eq!(resolve_fft_size(FFTSize::Custom(4), 10000), Ok(4));
}

#[test]
fn transform_sizes_below_two_are_rejected() {
    assert_eq!(
        resolve_fft_size(FFTSize::Custom(0), 10000),
        Err(DomainError::InvalidTransformSize)
    );
    assert_eq!(
        resolve_fft_size(FFTSize::Custom(1), 10000),
        Err(DomainError::InvalidTransformSize)
    );
    // 0.099 Hz resolves to a base of 1 in the automatic mode.
    assert_eq!(
        resolve_fft_size(FFTSize::Auto, 99),
        Err(DomainError::InvalidTransformSize)
    );
}

#[test]
fn resolved_size_is_even() {
    for samp in [100u32, 333, 5000, 9999, 10001, 19999] {
        let n = resolve_fft_size(FFTSize::Auto, samp).unwrap();
        assert_eq!(n % 2, 0);
    }
}

#[test]
fn bins_above_the_midpoint_are_mirrored() {
    assert_eq!(signed_bin_index(0, 8), 0);
    assert_eq!(signed_bin_index(1, 8), 1);
    assert_eq!(signed_bin_index(4, 8), 4);
    assert_eq!(signed_bin_index(5, 8), -3);
    assert_eq!(signed_bin_index(6, 8), -2);
    assert_eq!(signed_bin_index(7, 8), -1);
    assert_eq!(bin_index_table(8), vec![0, 1, 2, 3, 4, -3, -2, -1]);
}

fn sine_samples(signal_hz: f32, sampling_hz: f32, phase_half_turns: f32, n: usize) -> Vec<Complex<f32>> {
    let pi = std::f32::consts::PI;
    (0..n)
        .map(|i| {
            let t = i as f32 / sampling_hz;
            let y = (signal_hz * 2.0 * pi * t + phase_half_turns * pi).sin();
            Complex::new(y, 0.0)
        })
        .collect()
}

fn spectrum_of(signal_hz: f32, sampling_hz: f32, phase_half_turns: f32, n: usize) -> Vec<Complex<f32>> {
    let mut buffer = sine_samples(signal_hz, sampling_hz, phase_half_turns, n);
    let mut planner = FftPlanner::new();
    let fft = planner.plan_fft_forward(n);
    fft.process(&mut buffer);
    buffer
}

#[test]
fn spectrum_peak_recovers_the_signal_frequency() {
    // A 3 Hz sinusoid sampled at 10 Hz, above the Nyquist rate: the peak
    // bin of the spectrum must land within one bin width of 3 Hz.
    let n = resolve_fft_size(FFTSize::Auto, 10000).unwrap() as usize;
    let spectrum = spectrum_of(3.0, 10.0, 0.0, n);
    assert_eq!(spectrum.len(), n);

    let freq_resolution = 10.0 / n as f32;
    let mut peak_bin = 1usize;
    for k in 1..=n / 2 {
        if spectrum[k].norm() > spectrum[peak_bin].norm() {
            peak_bin = k;
        }
    }
    let peak_freq = peak_bin as f32 * freq_resolution;
    assert!((peak_freq - 3.0).abs() <= freq_resolution);
}

#[test]
fn phase_change_moves_phases_not_magnitudes() {
    let n = resolve_fft_size(FFTSize::Auto, 10000).unwrap() as usize;
    let s1 = spectrum_of(3.0, 10.0, 0.0, n);
    let s2 = spectrum_of(3.0, 10.0, 0.5, n);

    // Magnitudes agree within floating-point tolerance...
    for k in 0..n {
        assert!((s1[k].norm() - s2[k].norm()).abs() < 1e-3 * n as f32);
    }
    // ...but the phase at the signal's own bin has moved by about a
    // quarter turn.
    let peak = 60; // 3 Hz at a resolution of 0.05 Hz
    let phase_shift = (s2[peak].arg() - s1[peak].arg()).abs();
    assert!((phase_shift - 0.5 * std::f32::consts::PI).abs() < 0.05);
}
