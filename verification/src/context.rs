//! The execution context of a contract call, as plain values.
//!
//! The host environment owns the contract identity, the ledger clock and the
//! persistent store. The library works on a snapshot of them and records the
//! one store write that an initialization makes, so that the caller can carry
//! it back to the host.

use vstd::prelude::*;
use crate::seed::{
    distinct_salts_give_distinct_seeds, seed_fits_in_u64, seed_of, well_formed_identity,
};

verus! {

/// The nonce that an initialization observes when the store holds none yet.
pub const FIRST_NONCE: u32 = 1;

/// The nonce that an initialization observes: the stored one, or
/// [`FIRST_NONCE`] when none is stored.
pub open spec fn observed_nonce(stored: Option<u32>) -> u32 {
    match stored {
        Some(nonce) => nonce,
        None => FIRST_NONCE,
    }
}

/// What an initialization writes back: the observed nonce plus one, modulo 2^32.
pub open spec fn stored_after_init(stored: Option<u32>) -> Option<u32> {
    Some(((observed_nonce(stored) + 1) % 0x1_0000_0000) as u32)
}

/// The mathematical content of an [`ExecutionContext`].
pub struct ContextView {
    /// The contract identifier.
    pub identity: Seq<u8>,
    /// The ledger timestamp.
    pub timestamp: u64,
    /// The ledger sequence number.
    pub sequence: u32,
    /// The nonce in the persistent store, if one has been written.
    pub nonce: Option<u32>,
}

impl ContextView {
    /// Whether initialization succeeds on this context.
    pub open spec fn valid(self) -> bool {
        well_formed_identity(self.identity)
    }

    /// The seed that an initialization with `salt` derives from this context.
    pub open spec fn seed(self, salt: u32) -> u64 {
        seed_of(self.identity, self.timestamp, self.sequence, observed_nonce(self.nonce), salt) as u64
    }

    /// The context as one successful initialization leaves it: the nonce is
    /// consumed, everything else is untouched.
    pub open spec fn after_init(self) -> ContextView {
        ContextView { nonce: stored_after_init(self.nonce), ..self }
    }

    /// The context after `count` successful initializations in a row.
    pub open spec fn after_inits(self, count: nat) -> ContextView
        decreases count,
    {
        if count == 0 {
            self
        } else {
            self.after_inits((count - 1) as nat).after_init()
        }
    }
}

/// A snapshot of what the host environment exposes to one contract: its
/// identity, the ledger state and the stored nonce.
#[derive(Clone, Debug)]
pub struct ExecutionContext {
    identity: Vec<u8>,
    timestamp: u64,
    sequence: u32,
    nonce: Option<u32>,
}

impl View for ExecutionContext {
    type V = ContextView;

    closed spec fn view(&self) -> ContextView {
        ContextView {
            identity: self.identity@,
            timestamp: self.timestamp,
            sequence: self.sequence,
            nonce: self.nonce,
        }
    }
}

impl ExecutionContext {
    /// Builds a snapshot from what the host reports: the contract identifier,
    /// the ledger timestamp and sequence number, and the stored nonce (`None`
    /// before the first initialization).
    pub fn new(identity: Vec<u8>, timestamp: u64, sequence: u32, nonce: Option<u32>) -> (context:
        ExecutionContext)
        ensures
            context@ == (ContextView { identity: identity@, timestamp, sequence, nonce }),
    {
        ExecutionContext { identity, timestamp, sequence, nonce }
    }

    /// The contract identifier.
    pub fn identity(&self) -> (identity: &[u8])
        ensures
            identity@ == self@.identity,
    {
        self.identity.as_slice()
    }

    /// The ledger timestamp.
    pub fn timestamp(&self) -> (timestamp: u64)
        ensures
            timestamp == self@.timestamp,
    {
        self.timestamp
    }

    /// The ledger sequence number.
    pub fn sequence(&self) -> (sequence: u32)
        ensures
            sequence == self@.sequence,
    {
        self.sequence
    }

    /// The nonce as the persistent store holds it: what the host must store
    /// once an initialization has been made.
    pub fn stored_nonce(&self) -> (nonce: Option<u32>)
        ensures
            nonce == self@.nonce,
    {
        self.nonce
    }

    /// Takes the nonce for one initialization: returns the observed nonce and
    /// records the incremented one as stored. The increment wraps at 2^32.
    pub fn take_nonce(&mut self) -> (nonce: u32)
        ensures
            nonce == observed_nonce(old(self)@.nonce),
            final(self)@ == old(self)@.after_init(),
    {
        let nonce: u32 = match self.nonce {
            Some(stored) => stored,
            None => FIRST_NONCE,
        };
        self.nonce = Some(nonce.wrapping_add(1));
        nonce
    }
}

/// Nonce monotonicity: whatever mix of salted and unsalted initializations is
/// made on one contract, after `count` of them the nonce that the next one
/// would observe is the nonce observed before the first plus `count`, modulo
/// 2^32, and nothing else in the context has changed. In particular no nonce
/// is observed twice within 2^32 initializations.
pub proof fn nonce_advances_by_count(context: ContextView, count: nat)
    ensures
        observed_nonce(context.after_inits(count).nonce) == (observed_nonce(context.nonce) + count)
            % 0x1_0000_0000,
        context.after_inits(count).identity == context.identity,
        context.after_inits(count).timestamp == context.timestamp,
        context.after_inits(count).sequence == context.sequence,
        count > 0 ==> context.after_inits(count).nonce is Some,
        0 < count < 0x1_0000_0000 ==> observed_nonce(context.after_inits(count).nonce)
            != observed_nonce(context.nonce),
    decreases count,
{
    if count > 0 {
        nonce_advances_by_count(context, (count - 1) as nat);
    }
}

/// Salt independence on a context: two initializations that differ in the
/// salt alone are seeded differently.
pub proof fn distinct_salts_seed_differently(context: ContextView, first_salt: u32, second_salt: u32)
    requires
        first_salt != second_salt,
    ensures
        context.seed(first_salt) != context.seed(second_salt),
{
    let nonce = observed_nonce(context.nonce);
    distinct_salts_give_distinct_seeds(
        context.identity,
        context.timestamp,
        context.sequence,
        nonce,
        first_salt,
        second_salt,
    );
    seed_fits_in_u64(context.identity, context.timestamp, context.sequence, nonce, first_salt);
    seed_fits_in_u64(context.identity, context.timestamp, context.sequence, nonce, second_salt);
}

} // verus!
