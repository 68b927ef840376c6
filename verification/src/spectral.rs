//! Resolution of the discrete Fourier transform size, and the mapping from
//! transform bins to the signed frequencies they stand for.

use vstd::prelude::*;
use crate::params::DomainError;
use crate::params::FFTSize;

verus! {

/// The smallest even integer at or above `n`.
pub open spec fn spec_round_up_even(n: int) -> int {
    if n % 2 == 0 {
        n
    } else {
        n + 1
    }
}

/// The transform size before rounding to even: twenty samples per hertz of
/// sampling frequency (rounded down) in the automatic mode, or the supplied
/// size in the custom mode.
pub open spec fn spec_fft_base_size(fft_size: FFTSize, sampling_millihertz: int) -> int {
    match fft_size {
        FFTSize::Auto => sampling_millihertz / 50,
        FFTSize::Custom(n) => n as int,
    }
}

/// A base size of 0 or 1 cannot be used: the transform needs at least two
/// points.
pub open spec fn spec_fft_size_ok(fft_size: FFTSize, sampling_millihertz: int) -> bool {
    spec_fft_base_size(fft_size, sampling_millihertz) >= 2
}

/// The resolved transform size: the base size rounded up to even.
pub open spec fn spec_resolved_fft_size(fft_size: FFTSize, sampling_millihertz: int) -> int {
    spec_round_up_even(spec_fft_base_size(fft_size, sampling_millihertz))
}

/// Resolves the transform size for the given mode and sampling frequency.
///
/// In the automatic mode the base size is `20 · fs` hertz-samples rounded
/// down, which the integer division by 50 of the millihertz value computes
/// exactly; a custom size is taken as given.  An odd base is rounded up to
/// the next even size, since the spectrum of a real signal is split
/// symmetrically around its midpoint.  A base of 0 or 1 is rejected.
pub fn resolve_fft_size(fft_size: FFTSize, sampling_millihertz: u32) -> (r: Result<
    u64,
    DomainError,
>)
    ensures
        r is Ok <==> spec_fft_size_ok(fft_size, sampling_millihertz as int),
        r matches Ok(n) ==> n == spec_resolved_fft_size(fft_size, sampling_millihertz as int),
        r matches Ok(n) ==> n % 2 == 0 && 2 <= n <= 0x1_0000_0000,
        r matches Err(e) ==> e == DomainError::InvalidTransformSize,
{
    let base: u64 = match fft_size {
        FFTSize::Auto => (sampling_millihertz / 50) as u64,
        FFTSize::Custom(n) => n as u64,
    };
    if base < 2 {
        Err(DomainError::InvalidTransformSize)
    } else if base % 2 == 1 {
        Ok(base + 1)
    } else {
        Ok(base)
    }
}

/// The signed frequency index a transform bin stands for: bins up to the
/// midpoint carry non-negative multiples of the frequency resolution, bins
/// above it carry the negative multiples of the mirrored half.
pub open spec fn spec_signed_bin_index(k: int, n: int) -> int {
    if k <= n / 2 {
        k
    } else {
        k - n
    }
}

/// The signed frequency index of bin `k` in a transform of even size `n`.
/// The frequency the bin stands for is this index times the frequency
/// resolution (sampling frequency over `n`).
pub fn signed_bin_index(k: usize, n: usize) -> (r: i64)
    requires
        n % 2 == 0,
        2 <= n <= 0x1_0000_0000,
        k < n,
    ensures
        r == spec_signed_bin_index(k as int, n as int),
        -(n as int) / 2 < r <= n as int / 2,
{
    if k <= n / 2 {
        k as i64
    } else {
        k as i64 - n as i64
    }
}

/// The signed frequency indices of all `n` bins, in bin order.
pub fn bin_index_table(n: usize) -> (v: Vec<i64>)
    requires
        n % 2 == 0,
        2 <= n <= 0x1_0000_0000,
    ensures
        v@.len() == n,
        forall|k: int| 0 <= k < n ==> v@[k] == spec_signed_bin_index(k, n as int),
{
    let mut v: Vec<i64> = Vec::new();
    let mut k: usize = 0;
    while k < n
        invariant
            k <= n,
            n % 2 == 0,
            2 <= n <= 0x1_0000_0000,
            v@.len() == k,
            forall|i: int| 0 <= i < k ==> v@[i] == spec_signed_bin_index(i, n as int),
        decreases n - k,
    {
        let idx = signed_bin_index(k, n);
        v.push(idx);
        k = k + 1;
    }
    v
}

} // verus!
