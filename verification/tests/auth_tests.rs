use ibm_watson::auth::{
    parse_token_body, token_exchange_outcome, token_request_body, transport_failure,
    AuthenticationError, IamAuthenticator, AUTH_URL,
};

const FULL_BODY: &str = "{\"access_token\":\"acc-123\",\"refresh_token\":\"ref-456\",\
    \"delegated_refresh_token\":\"del-789\",\"token_type\":\"Bearer\",\
    \"expires_in\":3600,\"expiration\":1600000000,\"scope\":\"ibm openid\"}";

#[test]
fn successful_exchange_round_trips_every_field() {
    let auth = IamAuthenticator::from_exchange(200, FULL_BODY).unwrap();
    let token = auth.token_response();
    assert_eq!(token.access_token(), "acc-123");
    assert_eq!(token.refresh_token(), "ref-456");
    assert_eq!(
        token.delegated_refresh_token(),
        Some(&String::from("del-789"))
    );
    assert_eq!(token.token_type(), "Bearer");
    assert_eq!(token.expires_in(), 3600);
    assert_eq!(token.expiration(), 1600000000);
    assert_eq!(token.scope(), Some(&String::from("ibm openid")));
}

#[test]
fn optional_fields_may_be_absent() {
    let body = "{\"access_token\":\"a\",\"refresh_token\":\"r\",\
                 \"token_type\":\"Bearer\",\"expires_in\":1,\"expiration\":2}";
    let token = parse_token_body(body).unwrap();
    assert_eq!(token.delegated_refresh_token(), None);
    assert_eq!(token.scope(), None);
}

#[test]
fn optional_fields_accept_null() {
    let body = "{\"access_token\":\"a\",\"refresh_token\":\"r\",\
                 \"delegated_refresh_token\":null,\"token_type\":\"Bearer\",\
                 \"expires_in\":1,\"expiration\":2,\"scope\":null}";
    let token = parse_token_body(body).unwrap();
    assert_eq!(token.delegated_refresh_token(), None);
    assert_eq!(token.scope(), None);
}

#[test]
fn whitespace_and_member_order_do_not_matter() {
    let body = " \t\r\n{ \"expiration\" : 2 , \"token_type\" : \"Bearer\" ,\n\
                 \"refresh_token\" : \"r\" , \"expires_in\" : 1 ,\
                 \"access_token\" : \"a\" } \n";
    let token = parse_token_body(body).unwrap();
    assert_eq!(token.access_token(), "a");
    assert_eq!(token.expires_in(), 1);
}

#[test]
fn unknown_members_are_skipped() {
    let body = "{\"access_token\":\"a\",\"vendor\":\"ibm\",\"refresh_token\":\"r\",\
                 \"weight\":-12,\"token_type\":\"Bearer\",\"expires_in\":1,\
                 \"expiration\":2,\"extra\":null}";
    let token = parse_token_body(body).unwrap();
    assert_eq!(token.access_token(), "a");
}

#[test]
fn string_escapes_are_decoded() {
    let body = "{\"access_token\":\"a\\\"b\\\\c\\/d\\ne\\tf\\rg\\bh\\fi\",\
                 \"refresh_token\":\"r\",\"token_type\":\"Bearer\",\
                 \"expires_in\":1,\"expiration\":2}";
    let token = parse_token_body(body).unwrap();
    assert_eq!(token.access_token(), "a\"b\\c/d\ne\tf\rg\u{0008}h\u{000C}i");
}

#[test]
fn non_ascii_text_is_kept_verbatim() {
    let body = "{\"access_token\":\"a\",\"refresh_token\":\"r\",\
                 \"token_type\":\"Bearer\",\"expires_in\":1,\"expiration\":2,\
                 \"scope\":\"café ✓\"}";
    let token = parse_token_body(body).unwrap();
    assert_eq!(token.scope(), Some(&String::from("café ✓")));
}

#[test]
fn integer_bounds_and_signs() {
    let body = "{\"access_token\":\"a\",\"refresh_token\":\"r\",\
                 \"token_type\":\"Bearer\",\"expires_in\":-5,\
                 \"expiration\":999999999999999999}";
    let token = parse_token_body(body).unwrap();
    assert_eq!(token.expires_in(), -5);
    assert_eq!(token.expiration(), 999999999999999999);
    assert!(parse_token_body(
        "{\"access_token\":\"a\",\"refresh_token\":\"r\",\"token_type\":\"B\",\
          \"expires_in\":1,\"expiration\":1000000000000000000}"
    )
    .is_none());
    assert!(parse_token_body(
        "{\"access_token\":\"a\",\"refresh_token\":\"r\",\"token_type\":\"B\",\
          \"expires_in\":01,\"expiration\":2}"
    )
    .is_none());
    let zero = "{\"access_token\":\"a\",\"refresh_token\":\"r\",\"token_type\":\"B\",\
                 \"expires_in\":-0,\"expiration\":0}";
    assert_eq!(parse_token_body(zero).unwrap().expires_in(), 0);
}

#[test]
fn malformed_bodies_are_rejected() {
    // required member missing
    assert!(parse_token_body(
        "{\"access_token\":\"a\",\"refresh_token\":\"r\",\"token_type\":\"B\",\"expires_in\":1}"
    )
    .is_none());
    // empty object
    assert!(parse_token_body("{}").is_none());
    // duplicate member
    assert!(parse_token_body(
        "{\"access_token\":\"a\",\"access_token\":\"b\",\"refresh_token\":\"r\",\
          \"token_type\":\"B\",\"expires_in\":1,\"expiration\":2}"
    )
    .is_none());
    // wrong member type
    assert!(parse_token_body(
        "{\"access_token\":7,\"refresh_token\":\"r\",\"token_type\":\"B\",\
          \"expires_in\":1,\"expiration\":2}"
    )
    .is_none());
    // null for a required string
    assert!(parse_token_body(
        "{\"access_token\":null,\"refresh_token\":\"r\",\"token_type\":\"B\",\
          \"expires_in\":1,\"expiration\":2}"
    )
    .is_none());
    // trailing garbage
    let mut trailing = String::from(FULL_BODY);
    trailing.push_str(" x");
    assert!(parse_token_body(&trailing).is_none());
    // unterminated string
    assert!(parse_token_body("{\"access_token\":\"a").is_none());
    // raw control character inside a string
    assert!(parse_token_body(
        "{\"access_token\":\"a\u{0001}\",\"refresh_token\":\"r\",\"token_type\":\"B\",\
          \"expires_in\":1,\"expiration\":2}"
    )
    .is_none());
    // unsupported escape
    assert!(parse_token_body(
        "{\"access_token\":\"\\u0041\",\"refresh_token\":\"r\",\"token_type\":\"B\",\
          \"expires_in\":1,\"expiration\":2}"
    )
    .is_none());
    // not an object
    assert!(parse_token_body("\"access_token\"").is_none());
    assert!(parse_token_body("").is_none());
}

#[test]
fn empty_credentials_are_rejected() {
    assert!(parse_token_body(
        "{\"access_token\":\"\",\"refresh_token\":\"r\",\"token_type\":\"B\",\
          \"expires_in\":1,\"expiration\":2}"
    )
    .is_none());
    assert!(parse_token_body(
        "{\"access_token\":\"a\",\"refresh_token\":\"\",\"token_type\":\"B\",\
          \"expires_in\":1,\"expiration\":2}"
    )
    .is_none());
}

#[test]
fn status_400_is_parameter_validation_failure() {
    let outcome = token_exchange_outcome(400, "");
    assert_eq!(
        outcome.unwrap_err(),
        AuthenticationError::ParameterValidationFailed
    );
    let via_auth = IamAuthenticator::from_exchange(400, FULL_BODY);
    assert_eq!(
        via_auth.unwrap_err(),
        AuthenticationError::ParameterValidationFailed
    );
}

#[test]
fn unexpected_statuses_are_reported_with_their_code() {
    for status in [304u16, 401, 403, 404, 500, 503] {
        let outcome = token_exchange_outcome(status, FULL_BODY);
        assert_eq!(
            outcome.unwrap_err(),
            AuthenticationError::UnexpectedStatus(status)
        );
    }
    let err = token_exchange_outcome(503, "").unwrap_err();
    assert_eq!(
        err.message(),
        "The token exchange returned an unexpected status code: 503"
    );
}

#[test]
fn malformed_success_body_is_a_deserialization_error() {
    let outcome = token_exchange_outcome(200, "not json at all");
    assert_eq!(
        outcome.unwrap_err(),
        AuthenticationError::DeserializationFailed
    );
}

#[test]
fn connection_failure_carries_its_description() {
    let description = "dns error: failed to look up address";
    let err = transport_failure(String::from(description));
    assert_eq!(
        err,
        AuthenticationError::ConnectionError(String::from(description))
    );
    let message = err.message();
    assert_eq!(message, description);
    assert!(!message.is_empty());
}

#[test]
fn classification_is_idempotent_for_the_exchange() {
    let a = token_exchange_outcome(400, "").unwrap_err();
    let b = token_exchange_outcome(400, "").unwrap_err();
    assert_eq!(a, b);
    let c = token_exchange_outcome(418, "").unwrap_err();
    let d = token_exchange_outcome(418, "").unwrap_err();
    assert_eq!(c, d);
}

#[test]
fn request_body_holds_the_fixed_grant_and_the_key() {
    let body = token_request_body("my-api-key");
    assert_eq!(
        body,
        b"grant_type=urn:ibm:params:oauth:grant-type:apikey&apikey=my-api-key".to_vec()
    );
}

#[test]
fn request_body_escapes_reserved_characters() {
    let body = token_request_body("a&b=c%d e~f");
    assert_eq!(
        body,
        b"grant_type=urn:ibm:params:oauth:grant-type:apikey&apikey=a%26b%3Dc%25d%20e~f".to_vec()
    );
    let non_ascii = token_request_body("ké");
    assert_eq!(
        non_ascii,
        b"grant_type=urn:ibm:params:oauth:grant-type:apikey&apikey=k%C3%A9".to_vec()
    );
}

#[test]
fn values_outside_the_grammar_are_rejected() {
    // booleans are not part of the token-record grammar
    assert!(parse_token_body(
        "{\"access_token\":\"a\",\"refresh_token\":\"r\",\"token_type\":\"B\",\
          \"expires_in\":1,\"expiration\":2,\"extra\":true}"
    )
    .is_none());
    // fractional numbers are not part of it either
    assert!(parse_token_body(
        "{\"access_token\":\"a\",\"refresh_token\":\"r\",\"token_type\":\"B\",\
          \"expires_in\":1.5,\"expiration\":2}"
    )
    .is_none());
    // nested structures are not part of it
    assert!(parse_token_body(
        "{\"access_token\":\"a\",\"refresh_token\":\"r\",\"token_type\":\"B\",\
          \"expires_in\":1,\"expiration\":2,\"extra\":{}}"
    )
    .is_none());
}

#[test]
fn authentication_error_messages_are_fixed() {
    assert_eq!(
        AuthenticationError::ParameterValidationFailed.message(),
        "The identity service rejected the API key or the grant parameters"
    );
    assert_eq!(
        AuthenticationError::DeserializationFailed.message(),
        "The token exchange succeeded but its response body is not a well-formed token record"
    );
    assert_eq!(
        AuthenticationError::UnexpectedStatus(0).message(),
        "The token exchange returned an unexpected status code: 0"
    );
    assert_eq!(
        AuthenticationError::UnexpectedStatus(65535).message(),
        "The token exchange returned an unexpected status code: 65535"
    );
}

#[test]
fn the_identity_endpoint_is_fixed() {
    assert_eq!(AUTH_URL, "https://iam.cloud.ibm.com/identity/token");
}
