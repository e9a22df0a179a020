//! Seed derivation: how the 64-bit seed is computed from the context inputs.

use vstd::prelude::*;
use vstd::arithmetic::div_mod::{lemma_add_mod_noop_right, lemma_mul_mod_noop_left};
use crate::error::RngError;

verus! {

/// Number of identity bytes the derivation reads.
pub const IDENTITY_LEN: usize = 32;

/// Offset of the second identity window.
pub const LOW_WINDOW_AT: usize = 24;

/// Two to the power 64: the modulus of all seed arithmetic.
pub open spec fn modulus() -> int {
    0x1_0000_0000_0000_0000
}

/// The eight bytes of `bytes` starting at `at`, read as a big-endian number.
pub open spec fn be_window(bytes: Seq<u8>, at: int) -> int {
    bytes[at] * 0x0100_0000_0000_0000 + bytes[at + 1] * 0x0001_0000_0000_0000
        + bytes[at + 2] * 0x0000_0100_0000_0000 + bytes[at + 3] * 0x0000_0001_0000_0000
        + bytes[at + 4] * 0x0000_0000_0100_0000 + bytes[at + 5] * 0x0000_0000_0001_0000
        + bytes[at + 6] * 0x0000_0000_0000_0100 + bytes[at + 7]
}

/// Whether an identity is long enough to hold both windows.
pub open spec fn well_formed_identity(identity: Seq<u8>) -> bool {
    identity.len() >= IDENTITY_LEN
}

/// Sum of the two identity windows, bytes `[0, 8)` and `[24, 32)`, modulo 2^64.
pub open spec fn identity_component(identity: Seq<u8>) -> int {
    (be_window(identity, 0) + be_window(identity, LOW_WINDOW_AT as int)) % modulus()
}

/// Product of the ledger timestamp and the sequence number, modulo 2^64.
pub open spec fn time_component(timestamp: u64, sequence: u32) -> int {
    (timestamp * sequence) % modulus()
}

/// The seed: `((identity + time) * nonce + salt) mod 2^64`.
pub open spec fn seed_of(
    identity: Seq<u8>,
    timestamp: u64,
    sequence: u32,
    nonce: u32,
    salt: u32,
) -> int {
    ((identity_component(identity) + time_component(timestamp, sequence)) * nonce + salt)
        % modulus()
}

/// Reads the eight bytes at `at` as a big-endian number.
fn read_be_window(bytes: &[u8], at: usize) -> (value: u64)
    requires
        at + 8 <= bytes@.len(),
    ensures
        value == be_window(bytes@, at as int),
{
    let b0: u64 = bytes[at] as u64;
    let b1: u64 = bytes[at + 1] as u64;
    let b2: u64 = bytes[at + 2] as u64;
    let b3: u64 = bytes[at + 3] as u64;
    let b4: u64 = bytes[at + 4] as u64;
    let b5: u64 = bytes[at + 5] as u64;
    let b6: u64 = bytes[at + 6] as u64;
    let b7: u64 = bytes[at + 7] as u64;
    b0 * 0x0100_0000_0000_0000 + b1 * 0x0001_0000_0000_0000 + b2 * 0x0000_0100_0000_0000 + b3
        * 0x0000_0001_0000_0000 + b4 * 0x0000_0000_0100_0000 + b5 * 0x0000_0000_0001_0000 + b6
        * 0x0000_0000_0000_0100 + b7
}

/// Adds the two identity windows with wrap-around, or reports an identity that
/// is too short to hold them.
pub fn identity_sum(identity: &[u8]) -> (sum: Result<u64, RngError>)
    ensures
        well_formed_identity(identity@) ==> sum == Ok::<u64, RngError>(
            identity_component(identity@) as u64,
        ),
        !well_formed_identity(identity@) ==> sum == Err::<u64, RngError>(
            RngError::MalformedIdentity,
        ),
{
    if identity.len() < IDENTITY_LEN {
        return Err(RngError::MalformedIdentity);
    }
    let high: u64 = read_be_window(identity, 0);
    let low: u64 = read_be_window(identity, LOW_WINDOW_AT);
    Ok(high.wrapping_add(low))
}

/// Multiplies the ledger timestamp by the widened sequence number with
/// wrap-around.
pub fn time_product(timestamp: u64, sequence: u32) -> (product: u64)
    ensures
        product == time_component(timestamp, sequence),
{
    timestamp.wrapping_mul(sequence as u64)
}

/// Combines the two components with the nonce and the salt:
/// `((identity + time) * nonce + salt) mod 2^64`.
pub fn mix(identity_part: u64, time_part: u64, nonce: u32, salt: u32) -> (state: u64)
    ensures
        state == ((identity_part + time_part) * nonce + salt) % modulus(),
{
    let base: u64 = identity_part.wrapping_add(time_part);
    let scaled: u64 = base.wrapping_mul(nonce as u64);
    let state: u64 = scaled.wrapping_add(salt as u64);
    proof {
        let total: int = identity_part + time_part;
        assert(base == total % modulus());
        assert(scaled == (base * nonce) % modulus());
        lemma_mul_mod_noop_left(total, nonce as int, modulus());
        assert(scaled == (total * nonce) % modulus());
        assert(state == (scaled + salt) % modulus());
        lemma_add_mod_noop_right(salt as int, total * nonce, modulus());
    }
    state
}

/// Derives the seed from the four context inputs and the salt.
///
/// Fails exactly when the identity is shorter than 32 bytes; the arithmetic
/// itself wraps and never fails.
pub fn derive_seed(identity: &[u8], timestamp: u64, sequence: u32, nonce: u32, salt: u32) -> (seed:
    Result<u64, RngError>)
    ensures
        well_formed_identity(identity@) ==> seed == Ok::<u64, RngError>(
            seed_of(identity@, timestamp, sequence, nonce, salt) as u64,
        ),
        !well_formed_identity(identity@) ==> seed == Err::<u64, RngError>(
            RngError::MalformedIdentity,
        ),
{
    match identity_sum(identity) {
        Ok(identity_part) => {
            let time_part: u64 = time_product(timestamp, sequence);
            Ok(mix(identity_part, time_part, nonce, salt))
        },
        Err(e) => Err(e),
    }
}

/// Salt independence: with everything else equal, two different salts give
/// two different seeds.
pub proof fn distinct_salts_give_distinct_seeds(
    identity: Seq<u8>,
    timestamp: u64,
    sequence: u32,
    nonce: u32,
    first_salt: u32,
    second_salt: u32,
)
    requires
        first_salt != second_salt,
    ensures
        seed_of(identity, timestamp, sequence, nonce, first_salt) != seed_of(
            identity,
            timestamp,
            sequence,
            nonce,
            second_salt,
        ),
{
    let unsalted: int = (identity_component(identity) + time_component(timestamp, sequence))
        * nonce;
    assert(seed_of(identity, timestamp, sequence, nonce, first_salt) == (unsalted + first_salt)
        % modulus());
    assert(seed_of(identity, timestamp, sequence, nonce, second_salt) == (unsalted + second_salt)
        % modulus());
}

/// The seed always fits in 64 bits.
pub proof fn seed_fits_in_u64(
    identity: Seq<u8>,
    timestamp: u64,
    sequence: u32,
    nonce: u32,
    salt: u32,
)
    ensures
        0 <= seed_of(identity, timestamp, sequence, nonce, salt) <= u64::MAX,
{
}

} // verus!
