use ic_auth_tokens::{
    base62_encode_checksum, make_auth_token, make_auth_token_with_length,
    make_auth_token_with_value, make_checksum, seed_rng, verify_token, AuthToken, Checksum, Prefix,
};

const SEED: [u8; 32] = [0u8; 32];

#[test]
fn test_make_base62_encoded_checksum() {
    let checksum = make_checksum("yzBdc2BoUJhBY13n2nv8k5FXq9fYC0");
    assert_eq!(base62_encode_checksum(&checksum).0, "0R8GcS");
}

#[test]
fn test_make_auth_token_with_value() {
    let prefix = &Prefix("abc".to_string());
    let auth_token = make_auth_token_with_value(prefix, "yzBdc2BoUJhBY13n2nv8k5FXq9fYC0");
    assert_eq!(auth_token.0, "abc_yzBdc2BoUJhBY13n2nv8k5FXq9fYC00R8GcS");
}

#[test]
fn test_auth_token_length_default_prefix_a() {
    let mut rng = seed_rng(&SEED).unwrap();
    let prefix = &Prefix("a".to_string());
    assert_eq!(make_auth_token(&mut rng, prefix).unwrap().0.len(), 255);
}

#[test]
fn test_auth_token_length_default_prefix_ab() {
    let mut rng = seed_rng(&SEED).unwrap();
    let prefix = &Prefix("ab".to_string());
    assert_eq!(make_auth_token(&mut rng, prefix).unwrap().0.len(), 255);
}

#[test]
fn test_auth_token_length_default_prefix_abc() {
    let mut rng = seed_rng(&SEED).unwrap();
    let prefix = &Prefix("abc".to_string());
    assert_eq!(make_auth_token(&mut rng, prefix).unwrap().0.len(), 255);
}

#[test]
fn test_auth_token_length_40_prefix_a() {
    let length = 40;
    let mut rng = seed_rng(&SEED).unwrap();
    let prefix = &Prefix("a".to_string());
    assert_eq!(
        make_auth_token_with_length(&mut rng, prefix, length)
            .unwrap()
            .0
            .len(),
        length as usize
    );
}

#[test]
fn test_auth_token_length_40_prefix_ab() {
    let length = 40;
    let mut rng = seed_rng(&SEED).unwrap();
    let prefix = &Prefix("ab".to_string());
    assert_eq!(
        make_auth_token_with_length(&mut rng, prefix, length)
            .unwrap()
            .0
            .len(),
        length as usize
    );
}

#[test]
fn test_auth_token_length_40_prefix_abc() {
    let length = 40;
    let mut rng = seed_rng(&SEED).unwrap();
    let prefix = &Prefix("abc".to_string());
    assert_eq!(
        make_auth_token_with_length(&mut rng, prefix, length)
            .unwrap()
            .0
            .len(),
        length as usize
    );
}

#[test]
fn test_checksum_concrete_value() {
    // CRC-32/ISO-HDLC of the sample, as an independent implementation gives it.
    assert_eq!(make_checksum("yzBdc2BoUJhBY13n2nv8k5FXq9fYC0").0, 400931584);
}

#[test]
fn test_checksum_deterministic() {
    let a = make_checksum("some sample");
    let b = make_checksum("some sample");
    assert_eq!(a, b);
}

#[test]
fn test_checksum_empty_input() {
    assert_eq!(make_checksum("").0, 0);
}

#[test]
fn test_encode_checksum_zero() {
    assert_eq!(base62_encode_checksum(&Checksum(0)).0, "000000");
}

#[test]
fn test_encode_checksum_max() {
    assert_eq!(base62_encode_checksum(&Checksum(u32::MAX)).0, "4gfFC3");
}

#[test]
fn test_encode_checksum_always_six_chars() {
    let values = [0u32, 1, 61, 62, 3843, 3844, 916132831, 916132832, u32::MAX];
    for v in values {
        assert_eq!(base62_encode_checksum(&Checksum(v)).0.len(), 6);
    }
}

#[test]
fn test_encode_checksum_matches_base62_crate() {
    let values = [0u32, 1, 61, 62, 238327, 400931584, 916132832, u32::MAX];
    for v in values {
        let ours = base62_encode_checksum(&Checksum(v)).0;
        let theirs = format!("{:0>6}", base62::encode(v));
        assert_eq!(ours, theirs);
    }
}

#[test]
fn test_verify_token_round_trip() {
    let prefix = &Prefix("abc".to_string());
    let token = make_auth_token_with_value(prefix, "yzBdc2BoUJhBY13n2nv8k5FXq9fYC0");
    assert!(verify_token(&token, prefix).is_ok());
}

#[test]
fn test_verify_generated_token() {
    let mut rng = seed_rng(&SEED).unwrap();
    let prefix = &Prefix("session".to_string());
    let token = make_auth_token_with_length(&mut rng, prefix, 40).unwrap();
    assert!(verify_token(&token, prefix).is_ok());
}

#[test]
fn test_verify_rejects_mutated_sample() {
    // One character of the sample flipped: the embedded checksum no longer matches.
    let tampered = AuthToken("abc_xzBdc2BoUJhBY13n2nv8k5FXq9fYC00R8GcS".to_string());
    let prefix = &Prefix("abc".to_string());
    assert!(verify_token(&tampered, prefix).is_err());
}

#[test]
fn test_verify_rejects_mutated_checksum() {
    let tampered = AuthToken("abc_yzBdc2BoUJhBY13n2nv8k5FXq9fYC00R8GcT".to_string());
    let prefix = &Prefix("abc".to_string());
    assert!(verify_token(&tampered, prefix).is_err());
}

#[test]
fn test_verify_rejects_wrong_prefix() {
    let prefix = &Prefix("abc".to_string());
    let token = make_auth_token_with_value(prefix, "yzBdc2BoUJhBY13n2nv8k5FXq9fYC0");
    assert!(verify_token(&token, &Prefix("abd".to_string())).is_err());
}

#[test]
fn test_verify_rejects_short_token() {
    let prefix = &Prefix("abc".to_string());
    assert!(verify_token(&AuthToken("abc_".to_string()), prefix).is_err());
}

#[test]
fn test_seed_rng_short_entropy() {
    let err = seed_rng(&[0u8; 31]).err().unwrap();
    assert_eq!(err.expected, 32);
    assert_eq!(err.got, 31);
}

#[test]
fn test_seed_rng_long_entropy() {
    let err = seed_rng(&[0u8; 33]).err().unwrap();
    assert_eq!(err.expected, 32);
    assert_eq!(err.got, 33);
}

#[test]
fn test_length_budget_too_small() {
    let mut rng = seed_rng(&SEED).unwrap();
    let prefix = &Prefix("abc".to_string());
    let err = make_auth_token_with_length(&mut rng, prefix, 9).err().unwrap();
    assert_eq!(err.requested, 9);
    assert_eq!(err.prefix_length, 3);
}

#[test]
fn test_length_budget_no_room_for_sample() {
    // Exactly prefix + separator + checksum: a zero-length sample is rejected too.
    let mut rng = seed_rng(&SEED).unwrap();
    let prefix = &Prefix("abc".to_string());
    assert!(make_auth_token_with_length(&mut rng, prefix, 10).is_err());
}

#[test]
fn test_length_budget_smallest_valid() {
    let mut rng = seed_rng(&SEED).unwrap();
    let prefix = &Prefix("abc".to_string());
    let token = make_auth_token_with_length(&mut rng, prefix, 11).unwrap();
    assert_eq!(token.0.len(), 11);
    assert!(verify_token(&token, prefix).is_ok());
}

#[test]
fn test_distinct_draws_give_distinct_samples() {
    // The generator's stream is consumed in a single pass: two draws from the
    // same generator never repeat a payload.
    let mut rng = seed_rng(&SEED).unwrap();
    let prefix = &Prefix("a".to_string());
    let first = make_auth_token(&mut rng, prefix).unwrap();
    let second = make_auth_token(&mut rng, prefix).unwrap();
    assert_ne!(first.0, second.0);
}
