use sipcore::status::{StatusCode, StatusCodeKind};

#[test]
fn named_codes_map_to_their_numbers() {
    assert_eq!(StatusCode::Trying.code(), 100);
    assert_eq!(StatusCode::Ringing.code(), 180);
    assert_eq!(StatusCode::OK.code(), 200);
    assert_eq!(StatusCode::Unauthorized.code(), 401);
    assert_eq!(StatusCode::NotFound.code(), 404);
    assert_eq!(StatusCode::MethodNotAllowed.code(), 405);
    assert_eq!(StatusCode::BusyHere.code(), 486);
    assert_eq!(StatusCode::ServerInternalError.code(), 500);
    assert_eq!(StatusCode::Unwanted.code(), 607);
}

#[test]
fn numbers_map_to_their_named_codes() {
    assert_eq!(StatusCode::from(100), StatusCode::Trying);
    assert_eq!(StatusCode::from(180), StatusCode::Ringing);
    assert_eq!(StatusCode::from(200), StatusCode::OK);
    assert_eq!(StatusCode::from(401), StatusCode::Unauthorized);
    assert_eq!(StatusCode::from(486), StatusCode::BusyHere);
    assert_eq!(StatusCode::from(607), StatusCode::Unwanted);
}

#[test]
fn unknown_numbers_are_kept_verbatim() {
    assert_eq!(StatusCode::from(499), StatusCode::Other(499));
    assert_eq!(StatusCode::Other(499).code(), 499);
    assert_eq!(StatusCode::from(700), StatusCode::Other(700));
}

#[test]
fn every_number_round_trips() {
    for n in 0..=1000u16 {
        assert_eq!(StatusCode::from(n).code(), n);
    }
}

#[test]
fn kinds_follow_the_hundreds_digit() {
    assert_eq!(StatusCode::Trying.kind(), StatusCodeKind::Provisional);
    assert_eq!(StatusCode::OK.kind(), StatusCodeKind::Successful);
    assert_eq!(StatusCode::MovedPermanently.kind(), StatusCodeKind::Redirection);
    assert_eq!(StatusCode::BusyHere.kind(), StatusCodeKind::RequestFailure);
    assert_eq!(StatusCode::ServerInternalError.kind(), StatusCodeKind::ServerFailure);
    assert_eq!(StatusCode::Decline.kind(), StatusCodeKind::GlobalFailure);
    assert_eq!(StatusCode::Other(99).kind(), StatusCodeKind::Other);
    assert_eq!(StatusCode::Other(700).kind(), StatusCodeKind::Other);
}

#[test]
fn the_default_code_is_ok() {
    assert_eq!(StatusCode::default(), StatusCode::OK);
}
