//! The memoizing engine: one cache slot per computation kind, each keyed by
//! every input that kind depends on.

use vstd::prelude::*;
use crate::cache::CacheKey;
use crate::cache::SingleSlotCache;
use crate::params::DomainError;
use crate::params::FFTSize;
use crate::params::Params;
use crate::sampling::spec_aliased_frequency;
use crate::sampling::spec_is_aliased;
use crate::sampling::spec_sample_count;
use crate::spectral::spec_fft_size_ok;
use crate::spectral::spec_resolved_fft_size;

verus! {

/// The inputs the ideal signal curve depends on: the requested number of
/// points, the signal frequency and the phase offset.
#[derive(Clone, Copy, Debug, PartialEq, Eq, Structural)]
pub struct SignalKey {
    pub n_points: u32,
    pub signal_millihertz: u32,
    pub phase_offset_milli: u32,
}

/// The inputs the discrete sample points depend on: both frequencies and
/// the phase offset.
#[derive(Clone, Copy, Debug, PartialEq, Eq, Structural)]
pub struct SamplePointsKey {
    pub sampling_millihertz: u32,
    pub signal_millihertz: u32,
    pub phase_offset_milli: u32,
}

/// The inputs the spectrum depends on: both frequencies, the phase offset
/// and the resolved transform size.
#[derive(Clone, Copy, Debug, PartialEq, Eq, Structural)]
pub struct SpectrumKey {
    pub sampling_millihertz: u32,
    pub signal_millihertz: u32,
    pub phase_offset_milli: u32,
    pub fft_size: u64,
}

/// The inputs the reconstructed curve depends on: the requested number of
/// points, both frequencies, the phase offset and the length of the
/// spectrum it is synthesized from.
#[derive(Clone, Copy, Debug, PartialEq, Eq, Structural)]
pub struct ReconstructionKey {
    pub n_points: u32,
    pub sampling_millihertz: u32,
    pub signal_millihertz: u32,
    pub phase_offset_milli: u32,
    pub fft_len: u64,
}

impl CacheKey for SignalKey {
    fn key_eq(&self, other: &Self) -> (r: bool)
        ensures
            r <==> self == other,
    {
        self == other
    }
}

impl CacheKey for SamplePointsKey {
    fn key_eq(&self, other: &Self) -> (r: bool)
        ensures
            r <==> self == other,
    {
        self == other
    }
}

impl CacheKey for SpectrumKey {
    fn key_eq(&self, other: &Self) -> (r: bool)
        ensures
            r <==> self == other,
    {
        self == other
    }
}

impl CacheKey for ReconstructionKey {
    fn key_eq(&self, other: &Self) -> (r: bool)
        ensures
            r <==> self == other,
    {
        self == other
    }
}

/// The key the signal curve for `n_points` points is cached under.
pub open spec fn spec_signal_key(p: Params, n_points: u32) -> SignalKey {
    SignalKey {
        n_points,
        signal_millihertz: p.signal_millihertz,
        phase_offset_milli: p.phase_offset_milli,
    }
}

/// The key the discrete sample points are cached under.
pub open spec fn spec_sample_points_key(p: Params) -> SamplePointsKey {
    SamplePointsKey {
        sampling_millihertz: p.sampling_millihertz,
        signal_millihertz: p.signal_millihertz,
        phase_offset_milli: p.phase_offset_milli,
    }
}

/// The key the spectrum of resolved size `fft_size` is cached under.
pub open spec fn spec_spectrum_key(p: Params, fft_size: u64) -> SpectrumKey {
    SpectrumKey {
        sampling_millihertz: p.sampling_millihertz,
        signal_millihertz: p.signal_millihertz,
        phase_offset_milli: p.phase_offset_milli,
        fft_size,
    }
}

/// The key the reconstruction of `n_points` points from a spectrum of
/// length `fft_len` is cached under.
pub open spec fn spec_reconstruction_key(p: Params, n_points: u32, fft_len: u64) -> ReconstructionKey {
    ReconstructionKey {
        n_points,
        sampling_millihertz: p.sampling_millihertz,
        signal_millihertz: p.signal_millihertz,
        phase_offset_milli: p.phase_offset_milli,
        fft_len,
    }
}

/// The signal/spectrum engine: the current configuration and one memo per
/// computation kind.
///
/// The engine decides; the caller evaluates.  On each invocation the caller
/// asks for the cached output of a kind and, on a miss, evaluates the
/// floating-point sequence itself and hands it back to be stored under the
/// key derived from every input that kind depends on.  `P` is the caller's
/// sample-point type and `S` its spectrum-value type; both are opaque to the
/// engine, which reasons only about their number.
pub struct AliasEngine<P, S> {
    params: Params,
    signal: SingleSlotCache<SignalKey, Vec<P>>,
    sample_points: SingleSlotCache<SamplePointsKey, Vec<P>>,
    spectrum: SingleSlotCache<SpectrumKey, Vec<S>>,
    reconstruction: SingleSlotCache<ReconstructionKey, Vec<P>>,
}

impl<P, S> AliasEngine<P, S> {
    /// The current configuration.
    pub closed spec fn spec_params(self) -> Params {
        self.params
    }

    /// The stored signal entry, if any: its key and the stored curve.
    pub closed spec fn spec_signal_entry(self) -> Option<(SignalKey, Seq<P>)> {
        match self.signal.cached() {
            Some((k, v)) => Some((k, v@)),
            None => None,
        }
    }

    /// The stored sample-points entry, if any.
    pub closed spec fn spec_sample_points_entry(self) -> Option<(SamplePointsKey, Seq<P>)> {
        match self.sample_points.cached() {
            Some((k, v)) => Some((k, v@)),
            None => None,
        }
    }

    /// The stored spectrum entry, if any.
    pub closed spec fn spec_spectrum_entry(self) -> Option<(SpectrumKey, Seq<S>)> {
        match self.spectrum.cached() {
            Some((k, v)) => Some((k, v@)),
            None => None,
        }
    }

    /// The stored reconstruction entry, if any.
    pub closed spec fn spec_reconstruction_entry(self) -> Option<(ReconstructionKey, Seq<P>)> {
        match self.reconstruction.cached() {
            Some((k, v)) => Some((k, v@)),
            None => None,
        }
    }

    /// The engine's invariant: the configuration is valid, and every stored
    /// entry has the length its own key asks for — the signal and the
    /// reconstruction as many points as were requested, the sample points
    /// one more than the sampling frequency in hertz rounded down, the
    /// spectrum exactly its even transform size.
    pub closed spec fn wf(self) -> bool {
        &&& self.params.wf()
        &&& (self.spec_signal_entry() matches Some(e) ==> e.1.len() == e.0.n_points)
        &&& (self.spec_sample_points_entry() matches Some(e) ==> e.0.sampling_millihertz > 0
            && e.1.len() == spec_sample_count(e.0.sampling_millihertz as int))
        &&& (self.spec_spectrum_entry() matches Some(e) ==> e.1.len() == e.0.fft_size
            && e.0.fft_size % 2 == 0)
        &&& (self.spec_reconstruction_entry() matches Some(e) ==> e.0.n_points > 0
            && e.1.len() == e.0.n_points)
    }

    /// Whether the current configuration admits a transform size.
    pub open spec fn spec_fft_ok(self) -> bool {
        spec_fft_size_ok(self.spec_params().fft_size, self.spec_params().sampling_millihertz as int)
    }

    /// The transform size the current configuration resolves to.
    pub open spec fn spec_fft_size(self) -> int {
        spec_resolved_fft_size(
            self.spec_params().fft_size,
            self.spec_params().sampling_millihertz as int,
        )
    }

    /// What the signal memo yields for `n_points` under the current
    /// configuration: the stored curve exactly when the stored key equals
    /// the derived one in every attribute.
    pub open spec fn spec_cached_signal(self, n_points: u32) -> Option<Seq<P>> {
        match self.spec_signal_entry() {
            Some((k, s)) => if k == spec_signal_key(self.spec_params(), n_points) {
                Some(s)
            } else {
                None
            },
            None => None,
        }
    }

    /// What the sample-points memo yields under the current configuration.
    pub open spec fn spec_cached_sample_points(self) -> Option<Seq<P>> {
        match self.spec_sample_points_entry() {
            Some((k, s)) => if k == spec_sample_points_key(self.spec_params()) {
                Some(s)
            } else {
                None
            },
            None => None,
        }
    }

    /// What the spectrum memo yields under the current configuration.
    pub open spec fn spec_cached_spectrum(self) -> Option<Seq<S>> {
        match self.spec_spectrum_entry() {
            Some((k, s)) => if self.spec_fft_ok() && k == spec_spectrum_key(
                self.spec_params(),
                self.spec_fft_size() as u64,
            ) {
                Some(s)
            } else {
                None
            },
            None => None,
        }
    }

    /// What the reconstruction memo yields for `n_points` points from a
    /// spectrum of length `fft_len` under the current configuration.
    pub open spec fn spec_cached_reconstruction(self, n_points: u32, fft_len: u64) -> Option<
        Seq<P>,
    > {
        match self.spec_reconstruction_entry() {
            Some((k, s)) => if k == spec_reconstruction_key(self.spec_params(), n_points, fft_len) {
                Some(s)
            } else {
                None
            },
            None => None,
        }
    }

    /// A fresh engine with the default configuration and nothing computed
    /// yet.
    pub fn new() -> (e: Self)
        ensures
            e.wf(),
            e.spec_params() == (Params {
                signal_millihertz: 3000u32,
                sampling_millihertz: 10000u32,
                phase_offset_milli: 0u32,
                fft_size: FFTSize::Auto,
            }),
            e.spec_signal_entry() is None,
            e.spec_sample_points_entry() is None,
            e.spec_spectrum_entry() is None,
            e.spec_reconstruction_entry() is None,
    {
        AliasEngine {
            params: Params::default(),
            signal: SingleSlotCache::new(),
            sample_points: SingleSlotCache::new(),
            spectrum: SingleSlotCache::new(),
            reconstruction: SingleSlotCache::new(),
        }
    }

    /// Replaces the configuration, rejecting a zero frequency and leaving
    /// the engine untouched in that case.  The memo entries are kept: each
    /// is invalidated by its own key comparison exactly where an input it
    /// depends on has changed.
    pub fn set_parameters(
        &mut self,
        signal_millihertz: u32,
        sampling_millihertz: u32,
        phase_offset_milli: u32,
        fft_size: FFTSize,
    ) -> (r: Result<(), DomainError>)
        requires
            old(self).wf(),
            phase_offset_milli < 2000,
        ensures
            final(self).wf(),
            r is Ok <==> signal_millihertz > 0 && sampling_millihertz > 0,
            r matches Err(e) ==> e == DomainError::InvalidFrequency && *final(self) == *old(self),
            r is Ok ==> final(self).spec_params() == (Params {
                signal_millihertz,
                sampling_millihertz,
                phase_offset_milli,
                fft_size,
            }),
            final(self).spec_signal_entry() == old(self).spec_signal_entry(),
            final(self).spec_sample_points_entry() == old(self).spec_sample_points_entry(),
            final(self).spec_spectrum_entry() == old(self).spec_spectrum_entry(),
            final(self).spec_reconstruction_entry() == old(self).spec_reconstruction_entry(),
    {
        match Params::new(signal_millihertz, sampling_millihertz, phase_offset_milli, fft_size) {
            Ok(p) => {
                self.params = p;
                Ok(())
            },
            Err(e) => Err(e),
        }
    }

    /// The current configuration, for display.
    pub fn params(&self) -> (p: Params)
        ensures
            p == self.spec_params(),
    {
        self.params
    }

    /// The Nyquist frequency of the current configuration, in millionths of
    /// a hertz.
    pub fn nyquist_microhertz(&self) -> (r: u64)
        ensures
            r == 500 * self.spec_params().sampling_millihertz as int,
    {
        crate::sampling::nyquist_microhertz(self.params.sampling_millihertz)
    }

    /// Whether the current configuration aliases the signal.
    pub fn is_aliased(&self) -> (r: bool)
        ensures
            r == spec_is_aliased(
                self.spec_params().signal_millihertz as int,
                self.spec_params().sampling_millihertz as int,
            ),
    {
        crate::sampling::is_aliased(self.params.signal_millihertz, self.params.sampling_millihertz)
    }

    /// The frequency the signal appears as under the current configuration,
    /// in thousandths of a hertz.
    pub fn aliased_frequency_millihertz(&self) -> (r: u32)
        requires
            self.wf(),
        ensures
            r == spec_aliased_frequency(
                self.spec_params().signal_millihertz as int,
                self.spec_params().sampling_millihertz as int,
            ),
    {
        crate::sampling::aliased_frequency_millihertz(
            self.params.signal_millihertz,
            self.params.sampling_millihertz,
        )
    }

    /// The number of discrete sample points the current configuration asks
    /// for.
    pub fn sample_count(&self) -> (n: u64)
        requires
            self.wf(),
        ensures
            n == spec_sample_count(self.spec_params().sampling_millihertz as int),
    {
        crate::sampling::sample_count(self.params.sampling_millihertz)
    }

    /// The transform size the current configuration resolves to, or the
    /// failure it reports.
    pub fn resolved_fft_size(&self) -> (r: Result<u64, DomainError>)
        ensures
            r is Ok <==> self.spec_fft_ok(),
            r matches Ok(n) ==> n == self.spec_fft_size() && n % 2 == 0 && 2 <= n
                <= 0x1_0000_0000,
            r matches Err(e) ==> e == DomainError::InvalidTransformSize,
    {
        crate::spectral::resolve_fft_size(self.params.fft_size, self.params.sampling_millihertz)
    }

    /// Serves the ideal signal curve for `n_points` points if it was stored
    /// under the current configuration; any served curve has exactly
    /// `n_points` points.
    pub fn cached_signal(&self, n_points: u32) -> (r: Option<&Vec<P>>)
        requires
            self.wf(),
        ensures
            match r {
                Some(v) => self.spec_cached_signal(n_points) == Some(v@) && v@.len() == n_points,
                None => self.spec_cached_signal(n_points) is None,
            },
    {
        let key = self.signal_key(n_points);
        self.signal.lookup(&key)
    }

    /// Stores the ideal signal curve for `n_points` points, computed under
    /// the current configuration.
    pub fn store_signal(&mut self, n_points: u32, value: Vec<P>)
        requires
            old(self).wf(),
            value@.len() == n_points,
        ensures
            final(self).wf(),
            final(self).spec_params() == old(self).spec_params(),
            final(self).spec_cached_signal(n_points) == Some(value@),
            final(self).spec_sample_points_entry() == old(self).spec_sample_points_entry(),
            final(self).spec_spectrum_entry() == old(self).spec_spectrum_entry(),
            final(self).spec_reconstruction_entry() == old(self).spec_reconstruction_entry(),
    {
        let key = self.signal_key(n_points);
        self.signal.store(key, value);
    }

    /// Serves the discrete sample points if they were stored under the
    /// current configuration; any served curve has one point more than the
    /// sampling frequency in hertz rounded down.
    pub fn cached_sample_points(&self) -> (r: Option<&Vec<P>>)
        requires
            self.wf(),
        ensures
            match r {
                Some(v) => self.spec_cached_sample_points() == Some(v@) && v@.len()
                    == spec_sample_count(self.spec_params().sampling_millihertz as int),
                None => self.spec_cached_sample_points() is None,
            },
    {
        let key = self.sample_points_key();
        self.sample_points.lookup(&key)
    }

    /// Stores the discrete sample points computed under the current
    /// configuration.
    pub fn store_sample_points(&mut self, value: Vec<P>)
        requires
            old(self).wf(),
            value@.len() == spec_sample_count(old(self).spec_params().sampling_millihertz as int),
        ensures
            final(self).wf(),
            final(self).spec_params() == old(self).spec_params(),
            final(self).spec_cached_sample_points() == Some(value@),
            final(self).spec_signal_entry() == old(self).spec_signal_entry(),
            final(self).spec_spectrum_entry() == old(self).spec_spectrum_entry(),
            final(self).spec_reconstruction_entry() == old(self).spec_reconstruction_entry(),
    {
        let key = self.sample_points_key();
        self.sample_points.store(key, value);
    }

    /// Serves the spectrum if one was stored under the current
    /// configuration, or reports that the configuration admits no transform
    /// size.  Any served spectrum has exactly the resolved size, which is
    /// even.
    pub fn cached_spectrum(&self) -> (r: Result<Option<&Vec<S>>, DomainError>)
        requires
            self.wf(),
        ensures
            r is Ok <==> self.spec_fft_ok(),
            r matches Err(e) ==> e == DomainError::InvalidTransformSize,
            r matches Ok(o) ==> match o {
                Some(v) => self.spec_cached_spectrum() == Some(v@) && v@.len()
                    == self.spec_fft_size() && v@.len() % 2 == 0,
                None => self.spec_cached_spectrum() is None,
            },
    {
        let n = match self.resolved_fft_size() {
            Ok(n) => n,
            Err(e) => {
                return Err(e);
            },
        };
        let key = self.spectrum_key(n);
        Ok(self.spectrum.lookup(&key))
    }

    /// Stores the spectrum computed under the current configuration; its
    /// length must be the resolved transform size.
    pub fn store_spectrum(&mut self, value: Vec<S>)
        requires
            old(self).wf(),
            old(self).spec_fft_ok(),
            value@.len() == old(self).spec_fft_size(),
        ensures
            final(self).wf(),
            final(self).spec_params() == old(self).spec_params(),
            final(self).spec_cached_spectrum() == Some(value@),
            final(self).spec_signal_entry() == old(self).spec_signal_entry(),
            final(self).spec_sample_points_entry() == old(self).spec_sample_points_entry(),
            final(self).spec_reconstruction_entry() == old(self).spec_reconstruction_entry(),
    {
        let n = match self.resolved_fft_size() {
            Ok(n) => n,
            Err(_) => {
                return;
            },
        };
        let key = self.spectrum_key(n);
        self.spectrum.store(key, value);
    }

    /// Serves the reconstructed curve for `n_points` points from a spectrum
    /// of length `fft_len` if it was stored under the current
    /// configuration.  Zero points are rejected: the reconstruction is
    /// semantically a non-empty curve.
    pub fn cached_reconstruction(&self, n_points: u32, fft_len: u64) -> (r: Result<
        Option<&Vec<P>>,
        DomainError,
    >)
        requires
            self.wf(),
        ensures
            r is Ok <==> n_points > 0,
            r matches Err(e) ==> e == DomainError::EmptyOutputRequested,
            r matches Ok(o) ==> match o {
                Some(v) => self.spec_cached_reconstruction(n_points, fft_len) == Some(v@)
                    && v@.len() == n_points,
                None => self.spec_cached_reconstruction(n_points, fft_len) is None,
            },
    {
        if n_points == 0 {
            return Err(DomainError::EmptyOutputRequested);
        }
        let key = self.reconstruction_key(n_points, fft_len);
        Ok(self.reconstruction.lookup(&key))
    }

    /// Stores the reconstructed curve for `n_points` points from a spectrum
    /// of length `fft_len`, computed under the current configuration.
    pub fn store_reconstruction(&mut self, n_points: u32, fft_len: u64, value: Vec<P>)
        requires
            old(self).wf(),
            n_points > 0,
            value@.len() == n_points,
        ensures
            final(self).wf(),
            final(self).spec_params() == old(self).spec_params(),
            final(self).spec_cached_reconstruction(n_points, fft_len) == Some(value@),
            final(self).spec_signal_entry() == old(self).spec_signal_entry(),
            final(self).spec_sample_points_entry() == old(self).spec_sample_points_entry(),
            final(self).spec_spectrum_entry() == old(self).spec_spectrum_entry(),
    {
        let key = self.reconstruction_key(n_points, fft_len);
        self.reconstruction.store(key, value);
    }

    /// The one derivation of the signal memo key, shared by lookup and
    /// store.
    fn signal_key(&self, n_points: u32) -> (k: SignalKey)
        ensures
            k == spec_signal_key(self.spec_params(), n_points),
    {
        SignalKey {
            n_points,
            signal_millihertz: self.params.signal_millihertz,
            phase_offset_milli: self.params.phase_offset_milli,
        }
    }

    /// The one derivation of the sample-points memo key.
    fn sample_points_key(&self) -> (k: SamplePointsKey)
        ensures
            k == spec_sample_points_key(self.spec_params()),
    {
        SamplePointsKey {
            sampling_millihertz: self.params.sampling_millihertz,
            signal_millihertz: self.params.signal_millihertz,
            phase_offset_milli: self.params.phase_offset_milli,
        }
    }

    /// The one derivation of the spectrum memo key.
    fn spectrum_key(&self, fft_size: u64) -> (k: SpectrumKey)
        ensures
            k == spec_spectrum_key(self.spec_params(), fft_size),
    {
        SpectrumKey {
            sampling_millihertz: self.params.sampling_millihertz,
            signal_millihertz: self.params.signal_millihertz,
            phase_offset_milli: self.params.phase_offset_milli,
            fft_size,
        }
    }

    /// The one derivation of the reconstruction memo key.
    fn reconstruction_key(&self, n_points: u32, fft_len: u64) -> (k: ReconstructionKey)
        ensures
            k == spec_reconstruction_key(self.spec_params(), n_points, fft_len),
    {
        ReconstructionKey {
            n_points,
            sampling_millihertz: self.params.sampling_millihertz,
            signal_millihertz: self.params.signal_millihertz,
            phase_offset_milli: self.params.phase_offset_milli,
            fft_len,
        }
    }
}

/// While the configuration and the stored entries are unchanged, every
/// memo yields the same output again: what the engine serves is a function
/// of the configuration and the entries alone.
pub proof fn lemma_unchanged_parameters_same_output<P, S>(
    e1: AliasEngine<P, S>,
    e2: AliasEngine<P, S>,
    n_points: u32,
    fft_len: u64,
)
    requires
        e1.spec_params() == e2.spec_params(),
        e1.spec_signal_entry() == e2.spec_signal_entry(),
        e1.spec_sample_points_entry() == e2.spec_sample_points_entry(),
        e1.spec_spectrum_entry() == e2.spec_spectrum_entry(),
        e1.spec_reconstruction_entry() == e2.spec_reconstruction_entry(),
    ensures
        e1.spec_cached_signal(n_points) == e2.spec_cached_signal(n_points),
        e1.spec_cached_sample_points() == e2.spec_cached_sample_points(),
        e1.spec_cached_spectrum() == e2.spec_cached_spectrum(),
        e1.spec_cached_reconstruction(n_points, fft_len) == e2.spec_cached_reconstruction(
            n_points,
            fft_len,
        ),
{
}

/// Changing the phase offset alone invalidates the spectrum memo: a
/// spectrum the engine was serving is not served after the change, because
/// its key records the phase it was computed at.
pub proof fn lemma_phase_change_invalidates_spectrum<P, S>(
    before: AliasEngine<P, S>,
    after: AliasEngine<P, S>,
)
    requires
        before.spec_cached_spectrum() is Some,
        after.spec_spectrum_entry() == before.spec_spectrum_entry(),
        after.spec_params().signal_millihertz == before.spec_params().signal_millihertz,
        after.spec_params().sampling_millihertz == before.spec_params().sampling_millihertz,
        after.spec_params().fft_size == before.spec_params().fft_size,
        after.spec_params().phase_offset_milli != before.spec_params().phase_offset_milli,
    ensures
        after.spec_cached_spectrum() is None,
{
}

/// The spectrum memo key records every input the spectrum depends on: two
/// derivations share a key exactly when they agree on the signal frequency,
/// the sampling frequency, the phase offset and the resolved transform
/// size.  No relevant input can change without invalidating the entry.
pub proof fn lemma_spectrum_key_complete(p1: Params, n1: u64, p2: Params, n2: u64)
    ensures
        spec_spectrum_key(p1, n1) == spec_spectrum_key(p2, n2) <==> p1.signal_millihertz
            == p2.signal_millihertz && p1.sampling_millihertz == p2.sampling_millihertz
            && p1.phase_offset_milli == p2.phase_offset_milli && n1 == n2,
{
}

} // verus!
