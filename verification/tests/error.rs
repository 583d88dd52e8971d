use sunk::ApiError;

#[test]
fn code_70_is_not_found() {
    let e = ApiError::from_code(70, "Requested resource not found".to_string());
    assert_eq!(e, ApiError::NotFound);
}

#[test]
fn documented_codes_map_to_their_variants() {
    let msg = || "m".to_string();
    assert_eq!(ApiError::from_code(20, msg()), ApiError::ClientMustUpgrade);
    assert_eq!(ApiError::from_code(30, msg()), ApiError::ServerMustUpgrade);
    assert_eq!(ApiError::from_code(40, msg()), ApiError::WrongAuth);
    assert_eq!(ApiError::from_code(41, msg()), ApiError::Ldap);
    assert_eq!(
        ApiError::from_code(50, "Permission denied".to_string()),
        ApiError::NotAuthorized("Permission denied".to_string())
    );
    assert_eq!(ApiError::from_code(60, msg()), ApiError::TrialExpired);
    assert_eq!(ApiError::from_code(70, msg()), ApiError::NotFound);
}

#[test]
fn unknown_codes_degrade_to_generic_with_the_message() {
    assert_eq!(
        ApiError::from_code(0, "whatever".to_string()),
        ApiError::Generic("whatever".to_string())
    );
    assert_eq!(
        ApiError::from_code(10, "missing".to_string()),
        ApiError::Generic("missing".to_string())
    );
    assert_eq!(
        ApiError::from_code(9999, "divergent server".to_string()),
        ApiError::Generic("divergent server".to_string())
    );
}

#[test]
fn variant_codes() {
    assert_eq!(ApiError::Generic("x".to_string()).as_u16(), 0);
    assert_eq!(ApiError::MissingParameter.as_u16(), 10);
    assert_eq!(ApiError::ClientMustUpgrade.as_u16(), 20);
    assert_eq!(ApiError::ServerMustUpgrade.as_u16(), 30);
    assert_eq!(ApiError::WrongAuth.as_u16(), 40);
    assert_eq!(ApiError::Ldap.as_u16(), 41);
    assert_eq!(ApiError::NotAuthorized("x".to_string()).as_u16(), 50);
    assert_eq!(ApiError::TrialExpired.as_u16(), 60);
    assert_eq!(ApiError::NotFound.as_u16(), 70);
}

#[test]
fn messages_render_exactly() {
    assert_eq!(
        ApiError::Generic("oops".to_string()).message(),
        "Generic error: oops"
    );
    assert_eq!(
        ApiError::NotAuthorized("no".to_string()).message(),
        "Not authorized: no"
    );
    assert_eq!(ApiError::NotFound.message(), "Requested data not found");
    assert_eq!(
        ApiError::Ldap.message(),
        "Token authentication not supported for LDAP users"
    );
}
