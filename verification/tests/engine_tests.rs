use alias_engine::engine::AliasEngine;
use alias_engine::params::{DomainError, FFTSize};

use rustfft::num_complex::Complex;
use rustfft::FftPlanner;

type Engine = AliasEngine<(f32, f32), Complex<f32>>;

fn sine_curve(signal_hz: f32, phase_half_turns: f32, n: usize) -> Vec<(f32, f32)> {
    let pi = std::f32::consts::PI;
    (0..n)
        .map(|i| {
            let x = i as f32 / n as f32 * 2.0 * pi;
            (x, (signal_hz * x + phase_half_turns * pi).sin())
        })
        .collect()
}

fn compute_spectrum(engine: &Engine) -> Vec<Complex<f32>> {
    let p = engine.params();
    let n = engine.resolved_fft_size().unwrap() as usize;
    let sampling_hz = p.sampling_millihertz as f32 / 1000.0;
    let signal_hz = p.signal_millihertz as f32 / 1000.0;
    let phase_half_turns = p.phase_offset_milli as f32 / 1000.0;
    let pi = std::f32::consts::PI;
    let mut buffer: Vec<Complex<f32>> = (0..n)
        .map(|i| {
            let t = i as f32 / sampling_hz;
            let y = (signal_hz * 2.0 * pi * t + phase_half_turns * pi).sin();
            Complex::new(y, 0.0)
        })
        .collect();
    let mut planner = FftPlanner::new();
    let fft = planner.plan_fft_forward(n);
    fft.process(&mut buffer);
    buffer
}

fn bits_of(spectrum: &[Complex<f32>]) -> Vec<(u32, u32)> {
    spectrum
        .iter()
        .map(|c| (c.re.to_bits(), c.im.to_bits()))
        .collect()
}

#[test]
fn new_engine_has_nothing_cached() {
    let e = Engine::new();
    assert!(e.cached_signal(100).is_none());
    assert!(e.cached_sample_points().is_none());
    assert!(matches!(e.cached_spectrum(), Ok(None)));
    assert!(matches!(e.cached_reconstruction(100, 200), Ok(None)));
}

#[test]
fn engine_reports_the_default_configuration() {
    let e = Engine::new();
    assert_eq!(e.nyquist_microhertz(), 5_000_000);
    assert!(!e.is_aliased());
    assert_eq!(e.aliased_frequency_millihertz(), 3000);
    assert_eq!(e.sample_count(), 11);
    assert_eq!(e.resolved_fft_size(), Ok(200));
}

#[test]
fn set_parameters_rejects_zero_and_keeps_state() {
    let mut e = Engine::new();
    assert_eq!(
        e.set_parameters(0, 10000, 0, FFTSize::Auto),
        Err(DomainError::InvalidFrequency)
    );
    assert_eq!(e.params().signal_millihertz, 3000);
    assert_eq!(
        e.set_parameters(7000, 10000, 0, FFTSize::Auto),
        Ok(())
    );
    assert_eq!(e.params().signal_millihertz, 7000);
    assert!(e.is_aliased());
    assert_eq!(e.aliased_frequency_millihertz(), 3000);
}

#[test]
fn spectrum_served_twice_is_bit_identical() {
    let mut e = Engine::new();
    assert!(matches!(e.cached_spectrum(), Ok(None)));

    let spectrum = compute_spectrum(&e);
    assert_eq!(spectrum.len(), 200);
    e.store_spectrum(spectrum.clone());

    let first = bits_of(e.cached_spectrum().unwrap().unwrap());
    let second = bits_of(e.cached_spectrum().unwrap().unwrap());
    assert_eq!(first, second);
    assert_eq!(first, bits_of(&spectrum));
}

#[test]
fn phase_change_invalidates_the_spectrum() {
    let mut e = Engine::new();
    let s1 = compute_spectrum(&e);
    e.store_spectrum(s1.clone());
    assert!(matches!(e.cached_spectrum(), Ok(Some(_))));

    // Changing the phase offset alone must be a miss.
    e.set_parameters(3000, 10000, 500, FFTSize::Auto).unwrap();
    assert!(matches!(e.cached_spectrum(), Ok(None)));

    // Recomputed under the new phase: magnitudes agree within tolerance,
    // the phase at the signal's bin has moved.
    let s2 = compute_spectrum(&e);
    e.store_spectrum(s2.clone());
    for k in 0..s1.len() {
        assert!((s1[k].norm() - s2[k].norm()).abs() < 0.2);
    }
    let peak = 60; // 3 Hz at a resolution of 0.05 Hz
    assert!((s1[peak].arg() - s2[peak].arg()).abs() > 0.1);
}

#[test]
fn signal_served_repeatedly_is_identical() {
    let mut e = Engine::new();
    assert!(e.cached_signal(640).is_none());

    let curve = sine_curve(3.0, 0.0, 640);
    e.store_signal(640, curve.clone());

    let first: Vec<(u32, u32)> = e
        .cached_signal(640)
        .unwrap()
        .iter()
        .map(|(x, y)| (x.to_bits(), y.to_bits()))
        .collect();
    let second: Vec<(u32, u32)> = e
        .cached_signal(640)
        .unwrap()
        .iter()
        .map(|(x, y)| (x.to_bits(), y.to_bits()))
        .collect();
    assert_eq!(first, second);
    assert_eq!(first.len(), 640);

    // A different point count is a different key.
    assert!(e.cached_signal(641).is_none());
}

#[test]
fn sample_points_invalidate_when_the_sampling_frequency_changes() {
    let mut e = Engine::new();
    let count = e.sample_count() as usize;
    assert_eq!(count, 11);

    let pi = std::f32::consts::PI;
    let points: Vec<(f32, f32)> = (0..count)
        .map(|i| {
            let x = i as f32 * (2.0 * pi / 10.0);
            (x, (3.0 * x).sin())
        })
        .collect();
    e.store_sample_points(points);
    assert!(e.cached_sample_points().is_some());
    assert_eq!(e.cached_sample_points().unwrap().len(), 11);

    e.set_parameters(3000, 12000, 0, FFTSize::Auto).unwrap();
    assert!(e.cached_sample_points().is_none());
}

#[test]
fn reconstruction_cache_round_trip() {
    let mut e = Engine::new();
    assert!(matches!(e.cached_reconstruction(50, 200), Ok(None)));

    let curve = sine_curve(3.0, 0.0, 50);
    e.store_reconstruction(50, 200, curve);
    assert!(matches!(e.cached_reconstruction(50, 200), Ok(Some(_))));
    assert_eq!(e.cached_reconstruction(50, 200).unwrap().unwrap().len(), 50);

    // A spectrum of another length is another key.
    assert!(matches!(e.cached_reconstruction(50, 202), Ok(None)));
}

#[test]
fn empty_reconstruction_is_rejected() {
    let e = Engine::new();
    assert_eq!(
        e.cached_reconstruction(0, 200),
        Err(DomainError::EmptyOutputRequested)
    );
}

#[test]
fn custom_transform_size_errors_reach_the_spectrum_call() {
    let mut e = Engine::new();
    e.set_parameters(3000, 10000, 0, FFTSize::Custom(1)).unwrap();
    assert_eq!(e.cached_spectrum(), Err(DomainError::InvalidTransformSize));
    assert_eq!(
        e.resolved_fft_size(),
        Err(DomainError::InvalidTransformSize)
    );
}
