use ctr_drbg::context::{
    mbedtls_ctr_drbg_set_entropy_len, mbedtls_ctr_drbg_set_nonce_len, CtrDrbgContext,
};
use ctr_drbg::entropy::{ctr_drbg_self_test_entropy, SelfTestEntropy};
use ctr_drbg::error::DrbgError;
use ctr_drbg::generate::mbedtls_ctr_drbg_random;
use ctr_drbg::reseed::{
    ctr_drbg_reseed_from, functi_exit, mbedtls_ctr_drbg_reseed, mbedtls_ctr_drbg_reseed_internal,
    mbedtls_ctr_drbg_seed,
};
use ctr_drbg::self_test::{ENTROPY_SOURCE_NOPR, NONCE_PERS_NOPR, RESULT_NOPR};
use ctr_drbg::update::{
    ctr_drbg_update_internal, func_exit, funct_exit, mbedtls_ctr_drbg_update,
    mbedtls_ctr_drbg_update_ret,
};

fn tape(len: usize) -> Vec<u8> {
    (0..len).map(|i| ((i * 7 + 3) & 0xff) as u8).collect()
}

fn known() -> CtrDrbgContext<SelfTestEntropy> {
    let mut ctx: CtrDrbgContext<SelfTestEntropy> = CtrDrbgContext::new();
    mbedtls_ctr_drbg_set_entropy_len(&mut ctx, 32);
    assert_eq!(mbedtls_ctr_drbg_set_nonce_len(&mut ctx, 0), Ok(()));
    let source = SelfTestEntropy::new(&ENTROPY_SOURCE_NOPR);
    assert_eq!(mbedtls_ctr_drbg_seed(&mut ctx, source, &NONCE_PERS_NOPR), Ok(()));
    ctx
}

#[test]
fn seeding_takes_a_good_nonce_where_none_is_set() {
    let mut ctx: CtrDrbgContext<SelfTestEntropy> = CtrDrbgContext::new();
    mbedtls_ctr_drbg_set_entropy_len(&mut ctx, 32);
    assert_eq!(mbedtls_ctr_drbg_seed(&mut ctx, SelfTestEntropy::new(&tape(256)), b"pers"), Ok(()));
    // Thirty-two bytes of entropy and sixteen of nonce.
    assert_eq!(ctx.source().unwrap().offset(), 48);
    assert_eq!(ctx.reseed_counter(), 1);
    assert_eq!(ctx.nonce_len(), None);
    assert_eq!(
        mbedtls_ctr_drbg_random(&mut ctx, 16).unwrap(),
        vec![
            0x9c, 0xec, 0x19, 0xbf, 0xb7, 0x00, 0x3d, 0x2f, 0x8e, 0xc0, 0x80, 0xa2, 0x8f, 0xec,
            0xa1, 0x9e,
        ]
    );
}

#[test]
fn seeding_takes_the_default_entropy_length_where_none_is_set() {
    let mut ctx: CtrDrbgContext<SelfTestEntropy> = CtrDrbgContext::new();
    assert_eq!(ctx.entropy_len(), 0);
    assert_eq!(mbedtls_ctr_drbg_seed(&mut ctx, SelfTestEntropy::new(&tape(256)), &[]), Ok(()));
    assert_eq!(ctx.entropy_len(), 48);
    // Forty-eight bytes of entropy need no nonce.
    assert_eq!(ctx.source().unwrap().offset(), 48);
    assert_eq!(
        mbedtls_ctr_drbg_random(&mut ctx, 16).unwrap(),
        vec![
            0xab, 0x79, 0x06, 0xee, 0xa3, 0xa7, 0xd7, 0xb0, 0xe0, 0x93, 0x79, 0x1d, 0x29, 0x87,
            0x67, 0x8d,
        ]
    );
}

#[test]
fn seeding_takes_the_nonce_length_that_was_set() {
    let mut ctx: CtrDrbgContext<SelfTestEntropy> = CtrDrbgContext::new();
    mbedtls_ctr_drbg_set_entropy_len(&mut ctx, 32);
    assert_eq!(mbedtls_ctr_drbg_set_nonce_len(&mut ctx, 8), Ok(()));
    assert_eq!(ctx.nonce_len(), Some(8));
    assert_eq!(mbedtls_ctr_drbg_seed(&mut ctx, SelfTestEntropy::new(&tape(256)), b"p"), Ok(()));
    assert_eq!(ctx.source().unwrap().offset(), 40);
    assert_eq!(
        mbedtls_ctr_drbg_random(&mut ctx, 16).unwrap(),
        vec![
            0x85, 0x4e, 0x08, 0xd0, 0x6f, 0xf6, 0x99, 0xa1, 0x0e, 0x83, 0xc2, 0x81, 0x8d, 0x02,
            0x18, 0x14,
        ]
    );
}

#[test]
fn seeding_fails_where_the_source_has_too_little() {
    let mut ctx: CtrDrbgContext<SelfTestEntropy> = CtrDrbgContext::new();
    mbedtls_ctr_drbg_set_entropy_len(&mut ctx, 32);
    assert_eq!(
        mbedtls_ctr_drbg_seed(&mut ctx, SelfTestEntropy::new(&tape(31)), &[]),
        Err(DrbgError::EntropySourceFailed)
    );
    assert_eq!(ctx.reseed_counter(), -1);
    assert_eq!(ctx.source().unwrap().offset(), 0);
    // The source is bound all the same.
    assert_eq!(mbedtls_ctr_drbg_set_nonce_len(&mut ctx, 0), Err(DrbgError::EntropySourceFailed));
}

#[test]
fn seeding_fails_where_the_source_has_too_little_for_the_nonce() {
    let mut ctx: CtrDrbgContext<SelfTestEntropy> = CtrDrbgContext::new();
    mbedtls_ctr_drbg_set_entropy_len(&mut ctx, 32);
    // Enough for the entropy, not for the sixteen bytes of nonce after it.
    assert_eq!(
        mbedtls_ctr_drbg_seed(&mut ctx, SelfTestEntropy::new(&tape(47)), &[]),
        Err(DrbgError::EntropySourceFailed)
    );
    assert_eq!(ctx.source().unwrap().offset(), 32);
    assert_eq!(ctx.reseed_counter(), -1);
}

#[test]
fn seeding_refuses_what_does_not_fit_the_seed_buffer() {
    let mut ctx: CtrDrbgContext<SelfTestEntropy> = CtrDrbgContext::new();
    mbedtls_ctr_drbg_set_entropy_len(&mut ctx, 385);
    assert_eq!(
        mbedtls_ctr_drbg_seed(&mut ctx, SelfTestEntropy::new(&tape(1024)), &[]),
        Err(DrbgError::InputTooBig)
    );
    assert_eq!(ctx.source().unwrap().offset(), 0);

    let mut ctx: CtrDrbgContext<SelfTestEntropy> = CtrDrbgContext::new();
    mbedtls_ctr_drbg_set_entropy_len(&mut ctx, 32);
    // 32 bytes of entropy, 16 of nonce and 337 of personalization are 385.
    assert_eq!(
        mbedtls_ctr_drbg_seed(&mut ctx, SelfTestEntropy::new(&tape(1024)), &[0u8; 337]),
        Err(DrbgError::InputTooBig)
    );
    assert_eq!(ctx.source().unwrap().offset(), 0);
    assert_eq!(
        mbedtls_ctr_drbg_seed(&mut ctx, SelfTestEntropy::new(&tape(1024)), &[0u8; 336]),
        Ok(())
    );
    assert_eq!(ctx.source().unwrap().offset(), 48);
}

#[test]
fn reseed_refuses_a_nonce_that_does_not_fit() {
    let mut ctx = known();
    assert_eq!(
        mbedtls_ctr_drbg_reseed_internal(&mut ctx, &[], 353),
        Err(DrbgError::InputTooBig)
    );
    assert_eq!(
        mbedtls_ctr_drbg_reseed_internal(&mut ctx, &[0u8; 3], 350),
        Err(DrbgError::InputTooBig)
    );
    assert_eq!(ctx.source().unwrap().offset(), 32);
}

#[test]
fn reseed_before_seeding_is_refused() {
    let mut ctx: CtrDrbgContext<SelfTestEntropy> = CtrDrbgContext::new();
    mbedtls_ctr_drbg_set_entropy_len(&mut ctx, 32);
    assert_eq!(mbedtls_ctr_drbg_reseed(&mut ctx, &[]), Err(DrbgError::EntropySourceFailed));
    assert_eq!(ctx.reseed_counter(), -1);
}

#[test]
fn reseed_mixes_in_the_additional_input_and_starts_the_count_again() {
    let mut ctx = known();
    let _ = mbedtls_ctr_drbg_random(&mut ctx, 0).unwrap();
    let _ = mbedtls_ctr_drbg_random(&mut ctx, 0).unwrap();
    assert_eq!(ctx.reseed_counter(), 3);

    let mut ctx = known();
    assert_eq!(mbedtls_ctr_drbg_reseed(&mut ctx, b"more"), Ok(()));
    assert_eq!(ctx.reseed_counter(), 1);
    assert_eq!(ctx.source().unwrap().offset(), 64);
    assert_eq!(
        mbedtls_ctr_drbg_random(&mut ctx, 16).unwrap(),
        vec![
            0x53, 0x70, 0x7a, 0xe9, 0xa7, 0xe5, 0x33, 0x5c, 0x4d, 0xce, 0xf7, 0x2c, 0xf1, 0x77,
            0xca, 0x40,
        ]
    );
}

#[test]
fn reseed_from_entropy_at_hand_is_a_reseed_with_that_entropy() {
    let mut ctx = known();
    let _ = mbedtls_ctr_drbg_random(&mut ctx, 16).unwrap();
    assert_eq!(ctx.reseed_counter(), 2);
    assert_eq!(ctr_drbg_reseed_from(&mut ctx, &ENTROPY_SOURCE_NOPR[32..]), Ok(()));
    assert_eq!(ctx.reseed_counter(), 1);
    // The source was not asked.
    assert_eq!(ctx.source().unwrap().offset(), 32);
    assert_eq!(mbedtls_ctr_drbg_random(&mut ctx, 16).unwrap(), RESULT_NOPR.to_vec());
}

#[test]
fn reseed_from_entropy_at_hand_refuses_what_is_too_long() {
    let mut ctx = known();
    assert_eq!(ctr_drbg_reseed_from(&mut ctx, &[0u8; 385]), Err(DrbgError::InputTooBig));
    assert_eq!(ctx.reseed_counter(), 1);
    let mut twin = known();
    assert_eq!(
        mbedtls_ctr_drbg_random(&mut ctx, 16).unwrap(),
        mbedtls_ctr_drbg_random(&mut twin, 16).unwrap()
    );
    assert_eq!(ctr_drbg_reseed_from(&mut ctx, &[0u8; 384]), Ok(()));
}

#[test]
fn reseed_fails_where_the_source_is_spent() {
    let mut ctx = known();
    assert_eq!(mbedtls_ctr_drbg_reseed(&mut ctx, &[]), Ok(()));
    assert_eq!(mbedtls_ctr_drbg_reseed(&mut ctx, &[]), Err(DrbgError::EntropySourceFailed));
    assert_eq!(ctx.source().unwrap().offset(), 64);
    assert_eq!(ctx.reseed_counter(), 1);
}

#[test]
fn update_mixes_additional_input_into_the_state() {
    let mut ctx = known();
    assert_eq!(mbedtls_ctr_drbg_update_ret(&mut ctx, b"hello"), Ok(()));
    assert_eq!(ctx.reseed_counter(), 1);
    assert_eq!(ctx.source().unwrap().offset(), 32);
    assert_eq!(
        mbedtls_ctr_drbg_random(&mut ctx, 16).unwrap(),
        vec![
            0x9a, 0x0b, 0xed, 0xf0, 0x86, 0x9d, 0x0a, 0xc5, 0xcb, 0xa9, 0x39, 0xc6, 0xb7, 0x09,
            0x7f, 0xb9,
        ]
    );
}

#[test]
fn update_with_nothing_changes_nothing() {
    let mut ctx = known();
    assert_eq!(mbedtls_ctr_drbg_update_ret(&mut ctx, &[]), Ok(()));
    mbedtls_ctr_drbg_update(&mut ctx, &[]);
    assert_eq!(
        mbedtls_ctr_drbg_random(&mut ctx, 16).unwrap(),
        vec![
            0x3f, 0x6d, 0xb5, 0x2d, 0xff, 0x53, 0xae, 0x68, 0xe9, 0x2a, 0xbc, 0xd8, 0x13, 0x1e,
            0xf8, 0xbf,
        ]
    );
}

#[test]
fn update_refuses_or_cuts_an_input_over_the_limit() {
    let long: Vec<u8> = (0..400usize).map(|i| (i & 0xff) as u8).collect();
    let expected = vec![
        0xdc, 0xb0, 0x79, 0x78, 0xbb, 0xc4, 0xc6, 0x86, 0x06, 0x13, 0x27, 0xe1, 0x11, 0x74, 0xcb,
        0x52,
    ];

    // The one that answers refuses it, and changes nothing.
    let mut ctx = known();
    assert_eq!(mbedtls_ctr_drbg_update_ret(&mut ctx, &long), Err(DrbgError::InputTooBig));
    assert_eq!(mbedtls_ctr_drbg_update_ret(&mut ctx, &long[..384]), Ok(()));
    assert_eq!(mbedtls_ctr_drbg_random(&mut ctx, 16).unwrap(), expected);

    // The one that cannot answer uses the first 384 bytes.
    let mut ctx = known();
    mbedtls_ctr_drbg_update(&mut ctx, &long);
    assert_eq!(mbedtls_ctr_drbg_random(&mut ctx, 16).unwrap(), expected);
}

#[test]
fn state_update_always_succeeds() {
    let mut ctx = known();
    assert_eq!(ctr_drbg_update_internal(&mut ctx, &[0xffu8; 48]), Ok(()));
    let mut twin = known();
    assert_eq!(ctr_drbg_update_internal(&mut twin, &[0xfeu8; 48]), Ok(()));
    assert_ne!(
        mbedtls_ctr_drbg_random(&mut ctx, 16).unwrap(),
        mbedtls_ctr_drbg_random(&mut twin, 16).unwrap()
    );
}

#[test]
fn leaving_update_and_reseed_erases_the_buffers() {
    let mut tmp = [1u8; 48];
    assert_eq!(func_exit(&mut tmp, Ok(())), Ok(()));
    assert_eq!(tmp, [0u8; 48]);

    let mut add_input = [2u8; 48];
    assert_eq!(
        funct_exit(&mut add_input, Err(DrbgError::InputTooBig)),
        Err(DrbgError::InputTooBig)
    );
    assert_eq!(add_input, [0u8; 48]);

    let mut seed = vec![3u8; 100];
    assert_eq!(
        functi_exit(&mut seed, Err(DrbgError::EntropySourceFailed)),
        Err(DrbgError::EntropySourceFailed)
    );
    assert!(seed.is_empty());
    let mut seed = vec![3u8; 100];
    assert_eq!(functi_exit(&mut seed, Ok(())), Ok(()));
    assert!(seed.is_empty());
}

#[test]
fn self_test_source_hands_out_its_string_piece_by_piece() {
    let mut source = SelfTestEntropy::new(&[1, 2, 3, 4, 5]);
    assert_eq!(source.offset(), 0);
    assert_eq!(ctr_drbg_self_test_entropy(&mut source, 2), Some(vec![1, 2]));
    assert_eq!(source.offset(), 2);
    assert_eq!(ctr_drbg_self_test_entropy(&mut source, 0), Some(vec![]));
    assert_eq!(source.offset(), 2);
    // More than is left: nothing is handed out and nothing moves.
    assert_eq!(ctr_drbg_self_test_entropy(&mut source, 4), None);
    assert_eq!(source.offset(), 2);
    assert_eq!(ctr_drbg_self_test_entropy(&mut source, usize::MAX), None);
    assert_eq!(ctr_drbg_self_test_entropy(&mut source, 3), Some(vec![3, 4, 5]));
    assert_eq!(source.offset(), 5);
    assert_eq!(ctr_drbg_self_test_entropy(&mut source, 1), None);
    assert_eq!(ctr_drbg_self_test_entropy(&mut source, 0), Some(vec![]));
}
