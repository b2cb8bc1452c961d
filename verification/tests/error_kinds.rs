use auth_errors::Error;

#[test]
fn each_failure_has_its_message() {
    assert_eq!(Error::WrongCredentialsError.to_string(), "wrong credentials");
    assert_eq!(Error::JWTTokenError.to_string(), "jwt token not valid");
    assert_eq!(Error::JWTTokenCreationError.to_string(), "jwt token creation error");
    assert_eq!(Error::NoAuthHeaderError.to_string(), "no auth header");
    assert_eq!(Error::InvalidAuthHeaderError.to_string(), "invalid auth header");
    assert_eq!(Error::NoPermissionError.to_string(), "no permission");
}

#[test]
fn diagnostics_see_one_label_for_every_failure() {
    let all = [
        Error::WrongCredentialsError,
        Error::JWTTokenError,
        Error::JWTTokenCreationError,
        Error::NoAuthHeaderError,
        Error::InvalidAuthHeaderError,
        Error::NoPermissionError,
    ];
    for error in all {
        assert_eq!(error.debug_string(), "User");
    }
}

#[test]
fn failures_compare_by_identity() {
    assert_eq!(Error::JWTTokenError, Error::JWTTokenError);
    assert_ne!(Error::JWTTokenError, Error::JWTTokenCreationError);
    let copy = Error::NoPermissionError;
    assert_eq!(copy, Error::NoPermissionError);
}
