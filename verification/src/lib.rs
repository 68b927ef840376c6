//! Signal/spectrum computation engine for an interactive aliasing
//! demonstration.
//!
//! The engine decides, for a sinusoidal signal and a sampling process, how
//! many discrete samples to take, how large the discrete Fourier transform
//! must be, which frequency each transform bin stands for, whether sampling
//! misrepresents the signal (aliasing) and as which frequency the signal then
//! appears, and when a previously computed output may be served again instead
//! of being recomputed.
//!
//! All of these decisions are exact integer computations, so the library
//! states them over fixed-point quantities: frequencies are integer
//! thousandths of a hertz, and the phase offset is an integer thousandth of a
//! half turn (the value `p` stands for `p/1000 · π` radians).  The
//! floating-point evaluation of the sine curve, of the transform itself and
//! of the reconstruction sum is left to the caller, who feeds the resulting
//! sequences back into the engine's caches as opaque values.

pub mod cache;
pub mod engine;
pub mod params;
pub mod sampling;
pub mod spectral;
