use argon2id_wasm::{HashOptions, PasswordError};

#[test]
fn serialization_error_is_rendered_with_its_heading() {
    let err = PasswordError::Serialization("invalid type: string, expected u32".to_string());
    assert_eq!(err.message(), "Serialization error: invalid type: string, expected u32");
    assert_eq!(err.detail(), "invalid type: string, expected u32");
}

#[test]
fn invalid_params_error_is_rendered_with_its_heading() {
    let err = PasswordError::invalid_params("memory cost is too small".to_string());
    assert_eq!(err, PasswordError::InvalidParams("memory cost is too small".to_string()));
    assert_eq!(err.message(), "Invalid hash parameters: memory cost is too small");
}

#[test]
fn invalid_input_error_is_rendered_with_its_heading() {
    let err = PasswordError::invalid_input("Password cannot be empty");
    assert_eq!(err, PasswordError::InvalidInput("Password cannot be empty".to_string()));
    assert_eq!(err.message(), "Invalid password or hash: Password cannot be empty");
}

#[test]
fn empty_detail_leaves_the_heading() {
    assert_eq!(PasswordError::InvalidInput(String::new()).message(), "Invalid password or hash: ");
}

#[test]
fn options_are_valid_from_eight_kib_one_pass_one_lane() {
    assert_eq!(HashOptions { time_cost: 1, memory_cost: 8, parallelism: 1 }.validate(), Ok(()));
    assert_eq!(
        HashOptions { time_cost: u32::MAX, memory_cost: u32::MAX, parallelism: u32::MAX }
            .validate(),
        Ok(())
    );
}

#[test]
fn options_below_a_bound_are_invalid_input() {
    let text =
        "Invalid hash parameters: memory_cost must be >= 8, time_cost and parallelism must be > 0";
    for options in [
        HashOptions { time_cost: 1, memory_cost: 7, parallelism: 1 },
        HashOptions { time_cost: 0, memory_cost: 8, parallelism: 1 },
        HashOptions { time_cost: 1, memory_cost: 8, parallelism: 0 },
        HashOptions { time_cost: 0, memory_cost: 0, parallelism: 0 },
    ] {
        assert_eq!(options.validate(), Err(PasswordError::InvalidInput(text.to_string())));
    }
}
