//! A dice-rolling contract: the smallest consumer of the generator.

use vstd::prelude::*;
use crate::context::ExecutionContext;
use crate::error::RngError;
use crate::generator::{range_step, seeded, SorobanRng};

verus! {

/// A contract that rolls a die with a chosen number of faces.
pub struct RollingDice;

impl RollingDice {
    /// Rolls a die with `max` faces, numbered from 0: initializes a generator
    /// from `context` without a salt and draws one value below `max`.
    pub fn roll(context: &mut ExecutionContext, max: u32) -> (rolled: Result<u32, RngError>)
        requires
            max > 0,
        ensures
            old(context)@.valid() ==> rolled is Ok && rolled->Ok_0 < max && rolled->Ok_0
                == range_step(seeded(old(context)@.seed(0)), max).0 && final(context)@ == old(
                context,
            )@.after_init(),
            !old(context)@.valid() ==> rolled is Err && rolled->Err_0
                == RngError::MalformedIdentity && final(context)@ == old(context)@,
    {
        match SorobanRng::init(context) {
            Ok(mut rng) => Ok(rng.gen_below(max)),
            Err(e) => Err(e),
        }
    }
}

} // verus!
