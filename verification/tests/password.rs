use sfe::password_getter::validate_password;
use sfe::password_getter::PasswordError;

#[test]
fn test_validate_password_accepts_matching_entries() {
    let accepted = validate_password(&String::from("hunter2"), &String::from("hunter2"));
    assert_eq!(accepted.unwrap(), "hunter2");
}

#[test]
fn test_validate_password_rejects_mismatched_entries() {
    let rejected = validate_password(&String::from("hunter2"), &String::from("hunter3"));
    assert_eq!(rejected.unwrap_err(), PasswordError);
}

#[test]
fn test_validate_password_rejects_empty_password() {
    let rejected = validate_password(&String::from(""), &String::from(""));
    assert_eq!(rejected.unwrap_err(), PasswordError);
}

#[test]
fn test_validate_password_rejects_whitespace_only_password() {
    let rejected = validate_password(&String::from("  \t "), &String::from("  \t "));
    assert_eq!(rejected.unwrap_err(), PasswordError);
}

#[test]
fn test_validate_password_keeps_surrounding_whitespace() {
    let accepted = validate_password(&String::from(" hunter2 "), &String::from(" hunter2 "));
    assert_eq!(accepted.unwrap(), " hunter2 ");
}

#[test]
fn test_password_error_message() {
    assert_eq!(PasswordError.message(), "invalid password");
}
