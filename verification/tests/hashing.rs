use argon2id_wasm::hashing::{check_password, classify, resolve_costs};
use argon2id_wasm::{hash, hash_with_salt, verify, HashOptions, PasswordError};

fn light() -> HashOptions {
    HashOptions { time_cost: 2, memory_cost: 16, parallelism: 1 }
}

fn fields(encoded: &str) -> Vec<String> {
    encoded.split('$').map(|field| field.to_string()).collect()
}

fn is_base64(text: &str) -> bool {
    text.chars().all(|c| c.is_ascii_alphanumeric() || c == '+' || c == '/')
}

#[test]
fn test_hash_with_empty_password() {
    let result = hash("", None);
    assert!(result.is_err());
    if let Err(err) = result {
        assert_eq!(err.message(), "Invalid password or hash: Password cannot be empty");
    }
}

#[test]
fn test_hash_with_valid_password() {
    let result = hash("test123", None);
    assert!(result.is_ok());
    let hash = result.unwrap();
    assert!(!hash.is_empty());
    assert!(hash.starts_with("$argon2id$"));
}

#[test]
fn test_hash_with_custom_options() {
    let options = HashOptions { time_cost: 2, memory_cost: 16, parallelism: 1 };
    let result = hash("test123", Some(options));
    assert!(result.is_ok());
}

#[test]
fn test_hash_with_invalid_options() {
    let options = HashOptions { time_cost: 0, memory_cost: 8, parallelism: 1 };
    let result = hash("test123", Some(options));
    assert!(result.is_err());
    if let Err(err) = result {
        assert_eq!(
            err.message(),
            "Invalid password or hash: Invalid hash parameters: memory_cost must be >= 8, time_cost and parallelism must be > 0"
        );
    }
}

#[test]
fn empty_password_is_invalid_input() {
    assert_eq!(
        hash("", None),
        Err(PasswordError::InvalidInput("Password cannot be empty".to_string()))
    );
    assert_eq!(
        hash("", Some(HashOptions { time_cost: 0, memory_cost: 0, parallelism: 0 })),
        Err(PasswordError::InvalidInput("Password cannot be empty".to_string()))
    );
    assert_eq!(
        hash_with_salt("", None, "c29tZXNhbHQ"),
        Err(PasswordError::InvalidInput("Password cannot be empty".to_string()))
    );
}

#[test]
fn zero_time_cost_is_rejected() {
    let result = hash("x", Some(HashOptions { time_cost: 0, memory_cost: 8, parallelism: 1 }));
    assert_eq!(
        result,
        Err(PasswordError::InvalidInput(
            "Invalid hash parameters: memory_cost must be >= 8, time_cost and parallelism must be > 0"
                .to_string()
        ))
    );
}

#[test]
fn memory_cost_below_eight_is_rejected() {
    let result = hash("x", Some(HashOptions { time_cost: 1, memory_cost: 7, parallelism: 1 }));
    assert_eq!(
        result,
        Err(PasswordError::InvalidInput(
            "Invalid hash parameters: memory_cost must be >= 8, time_cost and parallelism must be > 0"
                .to_string()
        ))
    );
}

#[test]
fn zero_parallelism_is_rejected() {
    let result = hash("x", Some(HashOptions { time_cost: 1, memory_cost: 8, parallelism: 0 }));
    assert!(matches!(result, Err(PasswordError::InvalidInput(_))));
}

#[test]
fn smallest_costs_are_accepted() {
    let result = hash("x", Some(HashOptions { time_cost: 1, memory_cost: 8, parallelism: 1 }));
    let encoded = result.unwrap();
    assert!(encoded.starts_with("$argon2id$v=19$m=8,t=1,p=1$"));
    assert_eq!(verify(&encoded, "x"), Ok(true));
}

#[test]
fn custom_options_round_trip() {
    let encoded = hash("test123", Some(light())).unwrap();
    assert_eq!(verify(&encoded, "test123"), Ok(true));
}

#[test]
fn default_options_round_trip() {
    let encoded = hash("correct horse battery staple", None).unwrap();
    assert_eq!(verify(&encoded, "correct horse battery staple"), Ok(true));
    assert_eq!(verify(&encoded, "correct horse battery stapler"), Ok(false));
}

#[test]
fn other_password_is_refused() {
    let encoded = hash("password1", Some(light())).unwrap();
    assert_eq!(verify(&encoded, "password2"), Ok(false));
    assert_eq!(verify(&encoded, "password1"), Ok(true));
}

#[test]
fn two_hashes_of_one_password_differ_and_both_verify() {
    let first = hash("test123", Some(light())).unwrap();
    let second = hash("test123", Some(light())).unwrap();
    assert_ne!(first, second);
    assert_eq!(verify(&first, "test123"), Ok(true));
    assert_eq!(verify(&second, "test123"), Ok(true));
}

#[test]
fn absent_options_mean_the_default_costs() {
    let encoded = hash("test123", None).unwrap();
    assert!(encoded.starts_with("$argon2id$v=19$m=19456,t=2,p=1$"));
    assert_eq!(
        resolve_costs(None),
        Ok(HashOptions { time_cost: 2, memory_cost: 19456, parallelism: 1 })
    );
}

#[test]
fn encoded_hash_has_six_fields() {
    let encoded = hash("test123", Some(light())).unwrap();
    let parts = fields(&encoded);
    assert_eq!(parts.len(), 6);
    assert_eq!(parts[0], "");
    assert_eq!(parts[1], "argon2id");
    assert_eq!(parts[2], "v=19");
    assert_eq!(parts[3], "m=16,t=2,p=1");
    assert_eq!(parts[4].len(), 22);
    assert!(is_base64(&parts[4]));
    assert_eq!(parts[5].len(), 43);
    assert!(is_base64(&parts[5]));
    assert!(!encoded.contains(char::is_whitespace));
}

#[test]
fn costs_are_written_in_decimal() {
    let costs = HashOptions { time_cost: 10, memory_cost: 1024, parallelism: 4 };
    let encoded = hash_with_salt("x", Some(costs), "c29tZXNhbHQ").unwrap();
    assert!(encoded.starts_with("$argon2id$v=19$m=1024,t=10,p=4$c29tZXNhbHQ$"));
}

#[test]
fn known_answer_for_a_given_salt() {
    let costs = HashOptions { time_cost: 2, memory_cost: 65536, parallelism: 1 };
    assert_eq!(
        hash_with_salt("password", Some(costs), "c29tZXNhbHQ"),
        Ok("$argon2id$v=19$m=65536,t=2,p=1$c29tZXNhbHQ$CTFhFdXPJO1aFaMaO6Mm5c8y7cJHAph8ArZWb2GRPPc"
            .to_string())
    );
}

#[test]
fn a_given_salt_makes_hashing_repeatable() {
    let first = hash_with_salt("test123", Some(light()), "c29tZXNhbHQ").unwrap();
    let second = hash_with_salt("test123", Some(light()), "c29tZXNhbHQ").unwrap();
    assert_eq!(first, second);
    let other_salt = hash_with_salt("test123", Some(light()), "b3RoZXJzYWx0").unwrap();
    assert_ne!(first, other_salt);
    let other_password = hash_with_salt("test124", Some(light()), "c29tZXNhbHQ").unwrap();
    assert_ne!(first, other_password);
    assert_eq!(verify(&first, "test123"), Ok(true));
    assert_eq!(verify(&first, "test124"), Ok(false));
}

#[test]
fn a_given_salt_stands_in_the_encoded_hash() {
    let encoded = hash_with_salt("test123", Some(light()), "c29tZXNhbHQ").unwrap();
    let parts = fields(&encoded);
    assert_eq!(parts[4], "c29tZXNhbHQ");
}

#[test]
fn a_salt_the_primitive_refuses_is_invalid_params() {
    assert_eq!(
        hash_with_salt("test123", Some(light()), "abc"),
        Err(PasswordError::InvalidParams("salt invalid: value to short".to_string()))
    );
    assert!(matches!(
        hash_with_salt("test123", Some(light()), "not base64!"),
        Err(PasswordError::InvalidParams(_))
    ));
}

#[test]
fn memory_too_small_for_the_lanes_is_invalid_params() {
    let result = hash("x", Some(HashOptions { time_cost: 1, memory_cost: 8, parallelism: 2 }));
    assert_eq!(result, Err(PasswordError::InvalidParams("memory cost is too small".to_string())));
    let result = hash("x", Some(HashOptions { time_cost: 1, memory_cost: 31, parallelism: 4 }));
    assert_eq!(result, Err(PasswordError::InvalidParams("memory cost is too small".to_string())));
}

#[test]
fn too_many_lanes_is_invalid_params() {
    let costs = HashOptions { time_cost: 1, memory_cost: u32::MAX, parallelism: 0x100_0000 };
    assert_eq!(
        hash("x", Some(costs)),
        Err(PasswordError::InvalidParams("too many threads".to_string()))
    );
}

#[test]
fn lane_counts_beyond_thirty_two_bits_of_memory_are_invalid_params() {
    let costs = HashOptions { time_cost: 1, memory_cost: u32::MAX, parallelism: 0x2000_0000 };
    assert_eq!(
        hash("x", Some(costs)),
        Err(PasswordError::InvalidParams("memory cost is too small".to_string()))
    );
    let costs = HashOptions { time_cost: 1, memory_cost: 8, parallelism: u32::MAX };
    assert_eq!(
        hash("x", Some(costs)),
        Err(PasswordError::InvalidParams("memory cost is too small".to_string()))
    );
    let costs = HashOptions { time_cost: 1, memory_cost: u32::MAX, parallelism: 0x1FFF_FFFF };
    assert_eq!(
        hash("x", Some(costs)),
        Err(PasswordError::InvalidParams("too many threads".to_string()))
    );
}

#[test]
fn passwords_are_hashed_by_their_utf8_bytes() {
    let encoded = hash_with_salt("pässwörd ñ 密码", Some(light()), "c29tZXNhbHQ").unwrap();
    assert_eq!(verify(&encoded, "pässwörd ñ 密码"), Ok(true));
    assert_eq!(verify(&encoded, "password n"), Ok(false));
}

#[test]
fn hashing_succeeds_where_nothing_is_refused() {
    for costs in [
        HashOptions { time_cost: 1, memory_cost: 8, parallelism: 1 },
        HashOptions { time_cost: 3, memory_cost: 64, parallelism: 8 },
        HashOptions { time_cost: 1, memory_cost: 33, parallelism: 4 },
    ] {
        for password in ["x", " ", "pässwörd", "a much longer password, with spaces in it"] {
            let encoded = hash(password, Some(costs)).unwrap();
            assert_eq!(verify(&encoded, password), Ok(true));
        }
    }
    assert!(hash("x", None).is_ok());
}

#[test]
fn check_password_accepts_what_is_not_empty() {
    assert_eq!(check_password("x"), Ok(()));
    assert_eq!(check_password(" "), Ok(()));
    assert_eq!(
        check_password(""),
        Err(PasswordError::InvalidInput("Password cannot be empty".to_string()))
    );
}

#[test]
fn resolve_costs_keeps_valid_options() {
    assert_eq!(resolve_costs(Some(light())), Ok(light()));
    assert!(matches!(
        resolve_costs(Some(HashOptions { time_cost: 1, memory_cost: 7, parallelism: 1 })),
        Err(PasswordError::InvalidInput(_))
    ));
}

#[test]
fn classify_passes_strings_and_wraps_messages() {
    assert_eq!(classify(Ok("$argon2id$rest".to_string())), Ok("$argon2id$rest".to_string()));
    assert_eq!(
        classify(Err("invalid password".to_string())),
        Err(PasswordError::InvalidParams("invalid password".to_string()))
    );
}
