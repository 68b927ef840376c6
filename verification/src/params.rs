//! The mutable configuration that drives the engine, and the errors the
//! engine can report.
//!
//! Frequencies are held as integer thousandths of a hertz, the phase offset
//! as an integer thousandth of a half turn: a stored phase `p` stands for
//! `p/1000 · π` radians and therefore lies in `[0, 2000)`.

use vstd::prelude::*;

verus! {

/// A typed failure of an engine call.
#[derive(Clone, Copy, Debug, PartialEq, Eq, Structural)]
pub enum DomainError {
    /// A frequency of zero was supplied where a positive one is needed.
    InvalidFrequency,
    /// The transform size resolves to 0 or 1, which no discrete Fourier
    /// transform of a real signal can use here.
    InvalidTransformSize,
    /// Zero output points were requested where a non-empty curve is
    /// semantically required.
    EmptyOutputRequested,
}

/// How the size of the discrete Fourier transform is chosen: derived from
/// the sampling frequency, or supplied explicitly.
#[derive(Clone, Copy, Debug, PartialEq, Eq, Structural)]
pub enum FFTSize {
    Auto,
    Custom(u32),
}

/// The engine's configuration: signal frequency and sampling frequency in
/// thousandths of a hertz, phase offset in thousandths of a half turn, and
/// the transform-size mode.
///
/// The configuration is owned by the session that owns the engine and is
/// replaced only between invocations; the engine itself never changes it
/// during a computation.
#[derive(Clone, Copy, Debug, PartialEq, Eq, Structural)]
pub struct Params {
    pub signal_millihertz: u32,
    pub sampling_millihertz: u32,
    pub phase_offset_milli: u32,
    pub fft_size: FFTSize,
}

impl Params {
    /// Both frequencies are positive and the phase offset lies in `[0, 2)`
    /// half turns.
    pub open spec fn wf(self) -> bool {
        &&& self.signal_millihertz > 0
        &&& self.sampling_millihertz > 0
        &&& self.phase_offset_milli < 2000
    }

    /// Builds a configuration, rejecting a zero frequency.  The intended
    /// envelope of the demonstration (upper bounds on the frequencies) is
    /// the caller's to enforce; the engine has no inherent upper bound.
    pub fn new(
        signal_millihertz: u32,
        sampling_millihertz: u32,
        phase_offset_milli: u32,
        fft_size: FFTSize,
    ) -> (r: Result<Params, DomainError>)
        requires
            phase_offset_milli < 2000,
        ensures
            r is Ok <==> signal_millihertz > 0 && sampling_millihertz > 0,
            r matches Ok(p) ==> p == (Params {
                signal_millihertz,
                sampling_millihertz,
                phase_offset_milli,
                fft_size,
            }),
            r matches Err(e) ==> e == DomainError::InvalidFrequency,
            r matches Ok(p) ==> p.wf(),
    {
        if signal_millihertz == 0 || sampling_millihertz == 0 {
            Err(DomainError::InvalidFrequency)
        } else {
            Ok(Params { signal_millihertz, sampling_millihertz, phase_offset_milli, fft_size })
        }
    }
}

impl Default for Params {
    /// The configuration the demonstration starts from: a 3 Hz signal
    /// sampled at 10 Hz with no phase offset and an automatically chosen
    /// transform size.
    fn default() -> (p: Params)
        ensures
            p == (Params {
                signal_millihertz: 3000u32,
                sampling_millihertz: 10000u32,
                phase_offset_milli: 0u32,
                fft_size: FFTSize::Auto,
            }),
            p.wf(),
    {
        Params {
            signal_millihertz: 3000,
            sampling_millihertz: 10000,
            phase_offset_milli: 0,
            fft_size: FFTSize::Auto,
        }
    }
}

} // verus!
