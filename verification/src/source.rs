//! The random job source: a seeded pseudo-random generator producing the
//! per-tick arrival decision (a Bernoulli trial) and service durations
//! (uniform over an inclusive integer range). For a fixed seed, fixed
//! parameters, and a fixed history of draws the outputs are identical
//! across runs; the determinism of the whole simulation rests on this.

use vstd::prelude::*;

use rand::distributions::Bernoulli;
use rand::distributions::BernoulliError;
use rand::distributions::Uniform;
use rand::rngs::StdRng;

verus! {

/// The one user-facing failure: a constructor was handed an invalid
/// configuration (an arrival probability outside [0, 1] — a numerator
/// above its denominator, or a zero denominator — or an inverted
/// service-time range).
#[derive(Debug, Clone, Copy, PartialEq, Eq, Structural)]
pub enum SimError {
    InvalidConfiguration,
}

#[verifier::external_type_specification]
#[verifier::external_body]
pub struct ExStdRng(StdRng);

#[verifier::external_type_specification]
#[verifier::external_body]
pub struct ExBernoulli(Bernoulli);

#[verifier::external_type_specification]
#[verifier::external_body]
pub struct ExBernoulliError(BernoulliError);

/// The spec-level state of a job source: the seed and the distribution
/// parameters it was built from, and which draws it has made so far
/// (`true` for an arrival draw, `false` for a service draw).
pub ghost struct SourceModel {
    pub seed: u64,
    pub arrival_num: u32,
    pub arrival_den: u32,
    pub min_service: u64,
    pub max_service: u64,
    pub hist: Seq<bool>,
}

/// The outcome of the Bernoulli arrival trial a source makes after the
/// draws in `hist`, as a function of the seed and the parameters: a seeded
/// generator is deterministic, so these determine the draw.
pub uninterp spec fn bern_draw(
    seed: u64,
    num: u32,
    den: u32,
    min_s: u64,
    max_s: u64,
    hist: Seq<bool>,
) -> bool;

/// The service duration a source draws after the draws in `hist`, as a
/// function of the seed and the parameters, for the same reason.
pub uninterp spec fn serv_draw(
    seed: u64,
    num: u32,
    den: u32,
    min_s: u64,
    max_s: u64,
    hist: Seq<bool>,
) -> u64;

/// The arrival decision a source with the given model makes next: always
/// false for a zero numerator and always true for a numerator equal to the
/// denominator (rand documents both for `Bernoulli::from_ratio`), and
/// otherwise the Bernoulli draw itself.
pub open spec fn arrival_draw(
    seed: u64,
    num: u32,
    den: u32,
    min_s: u64,
    max_s: u64,
    hist: Seq<bool>,
) -> bool {
    if num == 0 {
        false
    } else if num == den {
        true
    } else {
        bern_draw(seed, num, den, min_s, max_s, hist)
    }
}

/// Seeded pseudo-random source of arrival decisions and service durations.
///
/// The plain fields mirror the parameters the distributions were built
/// from; the ghost fields record the seed the generator was built from and
/// every draw made since. The constructor is the only way to build one, so
/// the generator's actual state always corresponds to `(seed, hist)`.
pub struct JobSource {
    rng: StdRng,
    bern: Bernoulli,
    arrival_num: u32,
    arrival_den: u32,
    min_service: u64,
    max_service: u64,
    seed: Ghost<u64>,
    hist: Ghost<Seq<bool>>,
}

impl View for JobSource {
    type V = SourceModel;

    closed spec fn view(&self) -> SourceModel {
        SourceModel {
            seed: self.seed@,
            arrival_num: self.arrival_num,
            arrival_den: self.arrival_den,
            min_service: self.min_service,
            max_service: self.max_service,
            hist: self.hist@,
        }
    }
}

/// Relies on rand's `SeedableRng::seed_from_u64` for `StdRng`: it builds
/// the standard generator deterministically from a 64-bit seed.
#[verifier::external_body]
fn seeded_rng(seed: u64) -> StdRng {
    rand::SeedableRng::seed_from_u64(seed)
}

/// Relies on rand's `Bernoulli::from_ratio`: construction succeeds exactly
/// when the denominator is non-zero and the numerator does not exceed it.
#[verifier::external_body]
fn mk_bernoulli(num: u32, den: u32) -> (r: Result<Bernoulli, BernoulliError>)
    ensures
        r is Ok <==> (den != 0 && num <= den),
{
    Bernoulli::from_ratio(num, den)
}

impl JobSource {
    /// Build a source from a seed, an arrival probability given as
    /// `arrival_num` in `arrival_den`, and an inclusive service-time
    /// range. Rejects a probability outside [0, 1] (numerator above
    /// denominator, or zero denominator) and an inverted range; these are
    /// the only failures.
    pub fn new(
        seed: u64,
        arrival_num: u32,
        arrival_den: u32,
        min_service: u64,
        max_service: u64,
    ) -> (r: Result<JobSource, SimError>)
        ensures
            r is Ok <==> (arrival_den > 0 && arrival_num <= arrival_den && min_service
                <= max_service),
            (r matches Ok(s) ==> s@ == (SourceModel {
                seed,
                arrival_num,
                arrival_den,
                min_service,
                max_service,
                hist: Seq::empty(),
            })),
            (r matches Err(e) ==> e == SimError::InvalidConfiguration),
    {
        if min_service > max_service {
            return Err(SimError::InvalidConfiguration);
        }
        let bern = match mk_bernoulli(arrival_num, arrival_den) {
            Ok(b) => b,
            Err(_) => {
                return Err(SimError::InvalidConfiguration);
            },
        };
        let rng = seeded_rng(seed);
        Ok(
            JobSource {
                rng,
                bern,
                arrival_num,
                arrival_den,
                min_service,
                max_service,
                seed: Ghost(seed),
                hist: Ghost(Seq::empty()),
            },
        )
    }

    /// Decide whether a job arrives on this tick, by one Bernoulli trial
    /// on the source's generator.
    ///
    /// Relies on rand's `Bernoulli` sampled from a `StdRng`: the generator
    /// is documented as deterministic, and this module keeps `rng` seeded
    /// from `seed` and advanced by exactly the draws in `hist`, so the
    /// outcome is a function of the model alone. `Bernoulli::from_ratio`
    /// documents that a zero numerator always yields false and a numerator
    /// equal to the denominator always yields true.
    #[verifier::external_body]
    pub(crate) fn sample_arrival(&mut self) -> (b: bool)
        ensures
            b == arrival_draw(
                old(self)@.seed,
                old(self)@.arrival_num,
                old(self)@.arrival_den,
                old(self)@.min_service,
                old(self)@.max_service,
                old(self)@.hist,
            ),
            (old(self)@.arrival_num != 0 && old(self)@.arrival_num != old(self)@.arrival_den)
                ==> b == bern_draw(
                old(self)@.seed,
                old(self)@.arrival_num,
                old(self)@.arrival_den,
                old(self)@.min_service,
                old(self)@.max_service,
                old(self)@.hist,
            ),
            final(self)@ == (SourceModel { hist: old(self)@.hist.push(true), ..old(self)@ }),
    {
        rand::distributions::Distribution::sample(&self.bern, &mut self.rng)
    }

    /// Draw a service duration for a newly arrived job, uniformly over the
    /// source's inclusive range.
    ///
    /// Relies on rand's `Uniform::new_inclusive` — which panics only on an
    /// inverted range — and on sampling it from a `StdRng`: the draw lies
    /// within the inclusive range, and the generator is documented as
    /// deterministic, so with `rng` seeded from `seed` and advanced by
    /// exactly the draws in `hist` the outcome is a function of the model
    /// alone.
    #[verifier::external_body]
    pub(crate) fn sample_service(&mut self) -> (s: u64)
        requires
            old(self)@.min_service <= old(self)@.max_service,
        ensures
            s == serv_draw(
                old(self)@.seed,
                old(self)@.arrival_num,
                old(self)@.arrival_den,
                old(self)@.min_service,
                old(self)@.max_service,
                old(self)@.hist,
            ),
            old(self)@.min_service <= s <= old(self)@.max_service,
            final(self)@ == (SourceModel { hist: old(self)@.hist.push(false), ..old(self)@ }),
    {
        let unif: Uniform<u64> = Uniform::new_inclusive(self.min_service, self.max_service);
        rand::distributions::Distribution::sample(&unif, &mut self.rng)
    }
}

} // verus!
