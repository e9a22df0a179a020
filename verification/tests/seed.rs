//! Seed derivation on given inputs.

use soroban_rand::error::RngError;
use soroban_rand::seed::{derive_seed, identity_sum, mix, time_product};

fn counting_identity() -> Vec<u8> {
    (1u8..=32).collect()
}

#[test]
fn identity_sum_adds_first_and_last_window() {
    assert_eq!(identity_sum(&counting_identity()), Ok(1_881_411_867_694_605_864));
    assert_eq!(identity_sum(&[0u8; 32]), Ok(0));
}

#[test]
fn identity_windows_are_read_big_endian() {
    let mut id = [0u8; 32];
    id[7] = 1;
    assert_eq!(identity_sum(&id), Ok(1));
    id[7] = 0;
    id[0] = 1;
    assert_eq!(identity_sum(&id), Ok(1 << 56));
    id[0] = 0;
    id[31] = 2;
    assert_eq!(identity_sum(&id), Ok(2));
    id[31] = 0;
    id[24] = 3;
    assert_eq!(identity_sum(&id), Ok(3 << 56));
    id[24] = 0;
    id[3] = 0xab;
    id[28] = 0xcd;
    assert_eq!(identity_sum(&id), Ok(0xab_0000_0000 + 0xcd00_0000));
    id[8] = 0xff;
    id[23] = 0xff;
    assert_eq!(identity_sum(&id), Ok(0xab_0000_0000 + 0xcd00_0000));
}

#[test]
fn identity_sum_wraps() {
    assert_eq!(identity_sum(&[0xffu8; 32]), Ok(u64::MAX - 1));
}

#[test]
fn identity_sum_ignores_the_middle_and_the_tail() {
    let mut id = counting_identity();
    for b in id[8..24].iter_mut() {
        *b = 0xee;
    }
    id.extend_from_slice(&[0xaa; 8]);
    assert_eq!(identity_sum(&id), Ok(1_881_411_867_694_605_864));
}

#[test]
fn short_identity_is_malformed() {
    assert_eq!(identity_sum(&[]), Err(RngError::MalformedIdentity));
    assert_eq!(identity_sum(&[1u8; 31]), Err(RngError::MalformedIdentity));
    assert_eq!(derive_seed(&[1u8; 31], 5, 6, 7, 8), Err(RngError::MalformedIdentity));
    assert_eq!(derive_seed(&[], 0, 0, 1, 0), Err(RngError::MalformedIdentity));
    assert!(derive_seed(&[1u8; 32], 5, 6, 7, 8).is_ok());
}

#[test]
fn time_product_multiplies_and_wraps() {
    assert_eq!(time_product(1_700_000_000, 7), 11_900_000_000);
    assert_eq!(time_product(1_700_000_000, 0), 0);
    assert_eq!(time_product(0, u32::MAX), 0);
    assert_eq!(time_product(u64::MAX - 1, u32::MAX), 18_446_744_065_119_617_026);
    assert_eq!(time_product(u64::MAX, u32::MAX), u64::MAX - u32::MAX as u64 + 1);
}

#[test]
fn mix_follows_the_formula() {
    assert_eq!(mix(10, 20, 3, 4), 94);
    assert_eq!(mix(10, 20, 0, 4), 4);
    assert_eq!(mix(u64::MAX, 1, 5, 6), 6);
    assert_eq!(mix(u64::MAX, 0, 2, 3), 1);
    assert_eq!(mix(0, 0, u32::MAX, u32::MAX), u32::MAX as u64);
}

#[test]
fn seed_on_a_counting_identity() {
    let id = counting_identity();
    assert_eq!(derive_seed(&id, 1_700_000_000, 7, 1, 0), Ok(1_881_411_879_594_605_864));
    assert_eq!(derive_seed(&id, 1_700_000_000, 7, 3, 5), Ok(5_644_235_638_783_817_597));
    assert_eq!(derive_seed(&id, 10, 20, 2, 9), Ok(3_762_823_735_389_212_137));
}

#[test]
fn seed_of_zero_identity_and_zero_sequence_is_zero() {
    for timestamp in [0u64, 1, 1_700_000_000, u64::MAX] {
        assert_eq!(derive_seed(&[0u8; 32], timestamp, 0, 1, 0), Ok(0));
    }
}

#[test]
fn seed_at_the_ledger_limits() {
    assert_eq!(
        derive_seed(&[0u8; 32], u64::MAX - 1, u32::MAX, 1, 0),
        Ok(18_446_744_065_119_617_026)
    );
    assert_eq!(
        derive_seed(&[0xffu8; 32], u64::MAX, u32::MAX, u32::MAX, u32::MAX),
        Ok(4_294_967_296)
    );
}

#[test]
fn different_salts_give_different_seeds() {
    let id = counting_identity();
    let plain = derive_seed(&id, 1_700_000_000, 7, 3, 0).unwrap();
    for salt in [1u32, 2, 5, 1 << 31, u32::MAX] {
        let salted = derive_seed(&id, 1_700_000_000, 7, 3, salt).unwrap();
        assert_ne!(plain, salted);
        assert_eq!(salted, plain.wrapping_add(salt as u64));
    }
    assert_ne!(
        derive_seed(&[0xffu8; 32], u64::MAX, u32::MAX, u32::MAX, u32::MAX),
        derive_seed(&[0xffu8; 32], u64::MAX, u32::MAX, u32::MAX, 0)
    );
}

#[test]
fn seed_is_a_function_of_its_inputs() {
    let id = counting_identity();
    assert_eq!(derive_seed(&id, 99, 3, 8, 2), derive_seed(&id.clone(), 99, 3, 8, 2));
}

#[test]
fn error_messages() {
    assert_eq!(
        RngError::MalformedIdentity.message(),
        "contract identifier is shorter than 32 bytes"
    );
    assert_eq!(RngError::DrawFailure.message(), "the underlying generator failed to draw");
}
