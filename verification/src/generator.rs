//! The seeded generator and its draw operations.
//!
//! The bit generator itself is `rand`'s `SmallRng`. Nothing here reimplements
//! it: every draw is one call into `rand`, and the contracts speak of the
//! generator's state through names for what those calls return.

use vstd::prelude::*;
use rand::rngs::SmallRng;
use rand::{Rng, RngCore, SeedableRng};
use crate::context::{observed_nonce, ContextView, ExecutionContext};
use crate::error::RngError;
use crate::seed::{identity_sum, mix, time_product};

verus! {

/// `rand::rngs::SmallRng`, carried as an opaque value.
#[verifier::external_type_specification]
#[verifier::external_body]
pub struct ExSmallRng(rand::rngs::SmallRng);

/// `rand::Error`, carried as an opaque value.
#[verifier::external_type_specification]
#[verifier::external_body]
pub struct ExRandError(rand::Error);

/// The generator that `SmallRng::seed_from_u64` builds from `state`.
///
/// Which algorithm stands behind `SmallRng` is fixed when `rand` is built;
/// within one build the generator is a function of the seed alone.
pub uninterp spec fn seeded(state: u64) -> SmallRng;

/// What `RngCore::next_u32` does on a `SmallRng`: the value drawn and the
/// generator afterwards.
pub uninterp spec fn u32_step(rng: SmallRng) -> (u32, SmallRng);

/// What `RngCore::next_u64` does on a `SmallRng`: the value drawn and the
/// generator afterwards.
pub uninterp spec fn u64_step(rng: SmallRng) -> (u64, SmallRng);

/// What `RngCore::fill_bytes` does on a `SmallRng` for a destination of `len`
/// bytes: the bytes written and the generator afterwards.
pub uninterp spec fn bytes_step(rng: SmallRng, len: nat) -> (Seq<u8>, SmallRng);

/// What `Rng::gen_range(0..bound)` does on a `SmallRng`: the value drawn and
/// the generator afterwards.
pub uninterp spec fn range_step(rng: SmallRng, bound: u32) -> (u32, SmallRng);

/// Calls `SmallRng::seed_from_u64`. The result is the generator named
/// [`seeded`]; nothing is claimed about its internals.
#[verifier::external_body]
fn seed_small_rng(state: u64) -> (rng: SmallRng)
    ensures
        rng == seeded(state),
{
    SmallRng::seed_from_u64(state)
}

/// Calls `RngCore::next_u32` on a `SmallRng`. The draw and the new state are a
/// function of the old state, named [`u32_step`].
#[verifier::external_body]
fn small_rng_next_u32(rng: &mut SmallRng) -> (value: u32)
    ensures
        (value, *final(rng)) == u32_step(*old(rng)),
{
    rng.next_u32()
}

/// Calls `RngCore::next_u64` on a `SmallRng`. The draw and the new state are a
/// function of the old state, named [`u64_step`].
#[verifier::external_body]
fn small_rng_next_u64(rng: &mut SmallRng) -> (value: u64)
    ensures
        (value, *final(rng)) == u64_step(*old(rng)),
{
    rng.next_u64()
}

/// Calls `RngCore::fill_bytes` on a `SmallRng`. Every byte of `dest` is
/// overwritten; what is written and the new state depend on the old state and
/// on the length of `dest` only, and are named [`bytes_step`].
#[verifier::external_body]
fn small_rng_fill_bytes(rng: &mut SmallRng, dest: &mut [u8])
    ensures
        final(dest)@.len() == old(dest)@.len(),
        (final(dest)@, *final(rng)) == bytes_step(*old(rng), old(dest)@.len()),
{
    rng.fill_bytes(dest)
}

/// Calls `RngCore::try_fill_bytes` on a `SmallRng`. Both algorithms that can
/// stand behind `SmallRng` implement it as `fill_bytes` followed by `Ok(())`,
/// so it never fails and its effect is the one named [`bytes_step`].
#[verifier::external_body]
fn small_rng_try_fill_bytes(rng: &mut SmallRng, dest: &mut [u8]) -> (outcome: Result<
    (),
    rand::Error,
>)
    ensures
        outcome is Ok,
        final(dest)@.len() == old(dest)@.len(),
        (final(dest)@, *final(rng)) == bytes_step(*old(rng), old(dest)@.len()),
{
    rng.try_fill_bytes(dest)
}

/// Calls `Rng::gen_range(0..bound)` on a `SmallRng`. The range must not be
/// empty, or `rand` panics. The value lies in the range; it and the new state
/// are a function of the old state and the bound, named [`range_step`].
#[verifier::external_body]
fn small_rng_below(rng: &mut SmallRng, bound: u32) -> (value: u32)
    requires
        bound > 0,
    ensures
        value < bound,
        (value, *final(rng)) == range_step(*old(rng), bound),
{
    rng.gen_range(0..bound)
}

/// A generator seeded from an execution context.
///
/// Its view is the state of the underlying bit generator.
pub struct SorobanRng {
    rng: SmallRng,
}

impl View for SorobanRng {
    type V = SmallRng;

    closed spec fn view(&self) -> SmallRng {
        self.rng
    }
}

impl SorobanRng {
    /// Builds the generator from a seed that has already been derived.
    fn from_seed_state(state: u64) -> (made: SorobanRng)
        ensures
            made@ == seeded(state),
    {
        SorobanRng { rng: seed_small_rng(state) }
    }

    /// Initializes a generator from `context`, mixing `salt` into the seed.
    ///
    /// The identity is checked first: a context whose identity is shorter
    /// than 32 bytes is rejected and left as it was. Otherwise exactly one
    /// nonce is consumed, salted or not, and the generator is seeded with
    /// `((identity + time) * nonce + salt) mod 2^64`.
    pub fn init_with_salt(context: &mut ExecutionContext, salt: u32) -> (made: Result<
        SorobanRng,
        RngError,
    >)
        ensures
            old(context)@.valid() ==> made is Ok && made->Ok_0@ == seeded(old(context)@.seed(salt))
                && final(context)@ == old(context)@.after_init(),
            !old(context)@.valid() ==> made is Err && made->Err_0 == RngError::MalformedIdentity
                && final(context)@ == old(context)@,
    {
        let identity_part: u64 = match identity_sum(context.identity()) {
            Ok(sum) => sum,
            Err(e) => {
                return Err(e);
            },
        };
        let nonce: u32 = context.take_nonce();
        let time_part: u64 = time_product(context.timestamp(), context.sequence());
        let state: u64 = mix(identity_part, time_part, nonce, salt);
        Ok(SorobanRng::from_seed_state(state))
    }

    /// Initializes a generator from `context` without a salt: the same as
    /// [`SorobanRng::init_with_salt`] with salt 0.
    pub fn init(context: &mut ExecutionContext) -> (made: Result<SorobanRng, RngError>)
        ensures
            old(context)@.valid() ==> made is Ok && made->Ok_0@ == seeded(old(context)@.seed(0))
                && final(context)@ == old(context)@.after_init(),
            !old(context)@.valid() ==> made is Err && made->Err_0 == RngError::MalformedIdentity
                && final(context)@ == old(context)@,
    {
        Self::init_with_salt(context, 0)
    }

    /// Draws the next 32 bits from the underlying generator.
    pub fn next_u32(&mut self) -> (value: u32)
        ensures
            (value, final(self)@) == u32_step(old(self)@),
    {
        small_rng_next_u32(&mut self.rng)
    }

    /// Draws the next 64 bits from the underlying generator.
    pub fn next_u64(&mut self) -> (value: u64)
        ensures
            (value, final(self)@) == u64_step(old(self)@),
    {
        small_rng_next_u64(&mut self.rng)
    }

    /// Fills all of `dest` from the underlying generator.
    pub fn fill_bytes(&mut self, dest: &mut [u8])
        ensures
            final(dest)@.len() == old(dest)@.len(),
            (final(dest)@, final(self)@) == bytes_step(old(self)@, old(dest)@.len()),
    {
        small_rng_fill_bytes(&mut self.rng, dest)
    }

    /// Fills all of `dest` from the underlying generator through its fallible
    /// draw. A failure of the generator would be reported as
    /// [`RngError::DrawFailure`]; the generator in use never fails, so the
    /// call succeeds with the effect of [`SorobanRng::fill_bytes`].
    pub fn try_fill_bytes(&mut self, dest: &mut [u8]) -> (drawn: Result<(), RngError>)
        ensures
            drawn == Ok::<(), RngError>(()),
            final(dest)@.len() == old(dest)@.len(),
            (final(dest)@, final(self)@) == bytes_step(old(self)@, old(dest)@.len()),
    {
        let outcome = small_rng_try_fill_bytes(&mut self.rng, dest);
        draw_outcome(outcome)
    }

    /// Draws a value below `bound`, which must not be 0.
    pub fn gen_below(&mut self, bound: u32) -> (value: u32)
        requires
            bound > 0,
        ensures
            value < bound,
            (value, final(self)@) == range_step(old(self)@, bound),
    {
        small_rng_below(&mut self.rng, bound)
    }
}

/// Maps the outcome of a fallible draw of the underlying generator to the
/// library's own result: success stays success, and any failure becomes
/// [`RngError::DrawFailure`].
pub fn draw_outcome(outcome: Result<(), rand::Error>) -> (drawn: Result<(), RngError>)
    ensures
        outcome is Ok ==> drawn == Ok::<(), RngError>(()),
        outcome is Err ==> drawn == Err::<(), RngError>(RngError::DrawFailure),
{
    match outcome {
        Ok(_) => Ok(()),
        Err(_) => Err(RngError::DrawFailure),
    }
}

/// One draw operation, as a value.
pub enum Draw {
    /// `next_u32`.
    Word,
    /// `next_u64`.
    DoubleWord,
    /// `fill_bytes` or `try_fill_bytes` on a destination of this length.
    Bytes(nat),
    /// `gen_below` with this bound.
    Below(u32),
}

/// What one draw operation yields.
pub enum Drawn {
    /// The result of `next_u32`.
    Word(u32),
    /// The result of `next_u64`.
    DoubleWord(u64),
    /// What `fill_bytes` or `try_fill_bytes` wrote.
    Bytes(Seq<u8>),
    /// The result of `gen_below`.
    Below(u32),
}

/// What `draw` yields on a generator in state `rng`, and the state afterwards.
pub open spec fn draw_step(rng: SmallRng, draw: Draw) -> (Drawn, SmallRng) {
    match draw {
        Draw::Word => (Drawn::Word(u32_step(rng).0), u32_step(rng).1),
        Draw::DoubleWord => (Drawn::DoubleWord(u64_step(rng).0), u64_step(rng).1),
        Draw::Bytes(len) => (Drawn::Bytes(bytes_step(rng, len).0), bytes_step(rng, len).1),
        Draw::Below(bound) => (Drawn::Below(range_step(rng, bound).0), range_step(rng, bound).1),
    }
}

/// What a generator in state `rng` yields when `draws` are made in order.
pub open spec fn draw_sequence(rng: SmallRng, draws: Seq<Draw>) -> Seq<Drawn>
    decreases draws.len(),
{
    if draws.len() == 0 {
        Seq::empty()
    } else {
        seq![draw_step(rng, draws[0]).0] + draw_sequence(
            draw_step(rng, draws[0]).1,
            draws.subrange(1, draws.len() as int),
        )
    }
}

/// Determinism: two contexts that agree on identity, timestamp, sequence
/// number and observed nonce derive the same seed for a given salt, so the two
/// generators are in the same state and every sequence of draws yields the
/// same values on both.
pub proof fn equal_snapshots_draw_alike(
    first: ContextView,
    second: ContextView,
    salt: u32,
    draws: Seq<Draw>,
)
    requires
        first.identity == second.identity,
        first.timestamp == second.timestamp,
        first.sequence == second.sequence,
        observed_nonce(first.nonce) == observed_nonce(second.nonce),
    ensures
        first.seed(salt) == second.seed(salt),
        seeded(first.seed(salt)) == seeded(second.seed(salt)),
        draw_sequence(seeded(first.seed(salt)), draws) == draw_sequence(
            seeded(second.seed(salt)),
            draws,
        ),
{
}

} // verus!
