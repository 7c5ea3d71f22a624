use enroll::error::DbusError;
use enroll::username::validate_username;

#[test]
fn test_validate_username() {
    // Valid usernames
    assert!(validate_username("user").is_ok());
    assert!(validate_username("user1").is_ok());
    assert!(validate_username("user_name").is_ok());
    assert!(validate_username("user-name").is_ok());
    assert!(validate_username("user.name").is_ok());
    assert!(validate_username("u").is_ok());
    assert!(validate_username("123").is_ok());
    assert!(validate_username("User").is_ok()); // Uppercase is allowed by our validation

    // Invalid usernames
    assert!(validate_username("").is_err());
    assert!(validate_username("user name").is_err()); // space
    assert!(validate_username("user/name").is_err()); // slash
    assert!(validate_username("user@name").is_err()); // @
    assert!(validate_username("user!name").is_err()); // !
    assert!(validate_username("user?name").is_err()); // ?

    let long_name = "a".repeat(256);
    assert!(validate_username(&long_name).is_err());

    let max_len_name = "a".repeat(255);
    assert!(validate_username(&max_len_name).is_ok());
}

fn failure_text(r: Result<(), DbusError>) -> String {
    match r {
        Err(DbusError::Failure(m)) => m,
        other => panic!("expected a failure, got {:?}", other),
    }
}

#[test]
fn username_error_messages() {
    assert_eq!(failure_text(validate_username("")), "Username cannot be empty");
    assert_eq!(failure_text(validate_username(&"b".repeat(300))), "Username is too long");
    assert_eq!(failure_text(validate_username("a b")), "Invalid characters in username: a b");
}

#[test]
fn username_length_counts_bytes() {
    // 128 two-byte characters are 256 bytes: too long, though only 128 characters.
    let name = "ä".repeat(128);
    assert_eq!(failure_text(validate_username(&name)), "Username is too long");
    let name = "ä".repeat(127);
    assert!(validate_username(&name).is_ok());
}

#[test]
fn username_checks_in_order() {
    // Too long and with a bad character: the length is reported.
    let name = format!("{} ", "a".repeat(255));
    assert_eq!(failure_text(validate_username(&name)), "Username is too long");
}
