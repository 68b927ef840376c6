//! Sample counts, the Nyquist frequency, and how an under-sampled signal
//! frequency folds into the band the sampling process can represent.
//!
//! Frequencies are integer thousandths of a hertz throughout.

use vstd::prelude::*;

verus! {

/// How many discrete sample points are taken over the span: the sampling
/// frequency in hertz rounded down, plus one, so that a point at or near one
/// full period is included.
pub open spec fn spec_sample_count(sampling_millihertz: int) -> int {
    sampling_millihertz / 1000 + 1
}

/// Whether sampling misrepresents the signal: the signal frequency reaches
/// or exceeds the Nyquist frequency, half the sampling frequency.  The
/// boundary case, a signal exactly at the Nyquist frequency, counts as
/// aliased.
pub open spec fn spec_is_aliased(signal_millihertz: int, sampling_millihertz: int) -> bool {
    2 * signal_millihertz >= sampling_millihertz
}

/// The frequency as which the signal appears once sampled: its remainder
/// modulo the sampling frequency, reflected at the Nyquist frequency when
/// the remainder lands above it.
pub open spec fn spec_aliased_frequency(signal_millihertz: int, sampling_millihertz: int) -> int
    recommends
        sampling_millihertz > 0,
{
    let r = signal_millihertz % sampling_millihertz;
    if 2 * r > sampling_millihertz {
        sampling_millihertz - r
    } else {
        r
    }
}

/// Number of discrete sample points for the given sampling frequency.
pub fn sample_count(sampling_millihertz: u32) -> (n: u64)
    requires
        sampling_millihertz > 0,
    ensures
        n == spec_sample_count(sampling_millihertz as int),
        1 <= n <= u32::MAX as u64 / 1000 + 1,
{
    (sampling_millihertz / 1000) as u64 + 1
}

/// The Nyquist frequency — half the sampling frequency — in millionths of a
/// hertz, a unit fine enough to hold the exact half of any odd input.
pub fn nyquist_microhertz(sampling_millihertz: u32) -> (r: u64)
    ensures
        r == 500 * sampling_millihertz as int,
        2 * r == 1000 * sampling_millihertz as int,
{
    500u64 * sampling_millihertz as u64
}

/// Whether the signal is aliased by the sampling process.
pub fn is_aliased(signal_millihertz: u32, sampling_millihertz: u32) -> (r: bool)
    ensures
        r == spec_is_aliased(signal_millihertz as int, sampling_millihertz as int),
{
    2 * signal_millihertz as u64 >= sampling_millihertz as u64
}

/// The frequency as which the signal appears once sampled, in thousandths
/// of a hertz.
pub fn aliased_frequency_millihertz(signal_millihertz: u32, sampling_millihertz: u32) -> (r: u32)
    requires
        sampling_millihertz > 0,
    ensures
        r == spec_aliased_frequency(signal_millihertz as int, sampling_millihertz as int),
{
    let rem: u32 = signal_millihertz % sampling_millihertz;
    if 2 * rem as u64 > sampling_millihertz as u64 {
        sampling_millihertz - rem
    } else {
        rem
    }
}

/// The folded frequency always lies in the representable band: it is
/// non-negative and at most the Nyquist frequency.
pub proof fn lemma_aliased_frequency_in_band(signal_millihertz: int, sampling_millihertz: int)
    requires
        signal_millihertz >= 0,
        sampling_millihertz > 0,
    ensures
        0 <= spec_aliased_frequency(signal_millihertz, sampling_millihertz),
        2 * spec_aliased_frequency(signal_millihertz, sampling_millihertz)
            <= sampling_millihertz,
{
    vstd::arithmetic::div_mod::lemma_mod_bound(signal_millihertz, sampling_millihertz);
}

/// A signal below the Nyquist frequency is not folded at all: the frequency
/// it appears as is its own.
pub proof fn lemma_unaliased_signal_kept(signal_millihertz: int, sampling_millihertz: int)
    requires
        0 <= signal_millihertz,
        2 * signal_millihertz < sampling_millihertz,
    ensures
        !spec_is_aliased(signal_millihertz, sampling_millihertz),
        spec_aliased_frequency(signal_millihertz, sampling_millihertz) == signal_millihertz,
{
    vstd::arithmetic::div_mod::lemma_small_mod(
        signal_millihertz as nat,
        sampling_millihertz as nat,
    );
}

} // verus!
