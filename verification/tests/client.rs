use netatmo::ApiResponse;
use netatmo::AuthenticatedClient;
use netatmo::ClientCredentials;
use netatmo::Error;
use netatmo::NetatmoClient;
use netatmo::SendOutcome;
use netatmo::Token;

fn credentials() -> ClientCredentials {
    ClientCredentials { client_id: "abc".to_string(), client_secret: "xyz".to_string() }
}

fn authenticated() -> AuthenticatedClient {
    NetatmoClient::with_token(Token {
        access_token: "tok-1".to_string(),
        refresh_token: "rt-2".to_string(),
        expires_in: 3600,
    })
}

fn delivered(status: u16, body: &str) -> SendOutcome {
    SendOutcome::Delivered(ApiResponse { status, body: Some(body.to_string()) })
}

#[test]
fn authenticate_success_yields_decoded_token() {
    let client = NetatmoClient::new(credentials());
    let params = client.auth_params("rt-1");
    assert_eq!(params.len(), 4);
    let body = "{\"access_token\":\"tok-1\", \"refresh_token\":\"rt-2\", \"expires_in\":3600}";
    let authenticated = client.authenticate(delivered(200, body)).expect("token exchange");
    assert_eq!(authenticated.token().access_token, "tok-1");
    assert_eq!(authenticated.token().refresh_token, "rt-2");
    assert_eq!(authenticated.token().expires_in, 3600);
}

#[test]
fn auth_params_hold_refresh_token_and_credentials() {
    let client = NetatmoClient::new(credentials());
    let params = client.auth_params("rt-1");
    assert_eq!(
        params,
        vec![
            ("grant_type".to_string(), "refresh_token".to_string()),
            ("refresh_token".to_string(), "rt-1".to_string()),
            ("client_id".to_string(), "abc".to_string()),
            ("client_secret".to_string(), "xyz".to_string()),
        ]
    );
}

#[test]
fn expected_status_passes_response_through_unchanged() {
    let response = ApiResponse { status: 200, body: Some("not even json".to_string()) };
    let passed = response.clone().general_err_handler("get_measure", 200).expect("pass");
    assert_eq!(passed, response);
}

#[test]
fn error_envelope_becomes_api_call_failed() {
    let client = authenticated();
    let body = "{\"error\":{\"code\":9,\"message\":\"Invalid access token\"}}";
    let r = client.call("get_station_data", delivered(403, body));
    assert_eq!(
        r,
        Err(Error::ApiCallFailed {
            name: "get_station_data".to_string(),
            code: 9,
            message: "Invalid access token".to_string(),
        })
    );
}

#[test]
fn every_error_eligible_status_decodes_the_envelope() {
    let client = authenticated();
    let body = "{\"error\":{\"code\":-2,\"message\":\"boom\"}}";
    for status in [400u16, 401, 403, 404, 406, 500] {
        let r = client.call("get_homes_data", delivered(status, body));
        assert_eq!(
            r,
            Err(Error::ApiCallFailed {
                name: "get_homes_data".to_string(),
                code: -2,
                message: "boom".to_string(),
            })
        );
    }
}

#[test]
fn malformed_envelope_degrades_to_unknown_failure() {
    let client = authenticated();
    for body in ["not json", "{}", "{\"error\":{\"code\":\"nine\",\"message\":\"x\"}}", ""] {
        let r = client.call("get_home_status", delivered(400, body));
        assert_eq!(
            r,
            Err(Error::UnknownApiCallFailure {
                name: "get_home_status".to_string(),
                status_code: 400,
            })
        );
    }
}

#[test]
fn unreadable_body_on_error_status_is_unknown_failure() {
    let client = authenticated();
    let outcome = SendOutcome::Delivered(ApiResponse { status: 401, body: None });
    let r = client.call("get_measure", outcome);
    assert_eq!(
        r,
        Err(Error::UnknownApiCallFailure { name: "get_measure".to_string(), status_code: 401 })
    );
}

#[test]
fn status_outside_both_sets_is_unknown_failure_at_once() {
    let client = authenticated();
    // An envelope-shaped body must make no difference: it is never decoded.
    let body = "{\"error\":{\"code\":9,\"message\":\"ignored\"}}";
    let r = client.call("set_room_thermpoint", delivered(503, body));
    assert_eq!(
        r,
        Err(Error::UnknownApiCallFailure {
            name: "set_room_thermpoint".to_string(),
            status_code: 503,
        })
    );
}

#[test]
fn unknown_failure_on_empty_body_and_unexpected_status() {
    let client = authenticated();
    let r = client.call("get_homecoachs_data", delivered(503, ""));
    assert_eq!(
        r,
        Err(Error::UnknownApiCallFailure {
            name: "get_homecoachs_data".to_string(),
            status_code: 503,
        })
    );
}

#[test]
fn transport_failure_is_failed_to_send_request() {
    let client = authenticated();
    let outcome = SendOutcome::Failed { message: "connection refused".to_string() };
    let r = client.call("get_station_data", outcome);
    assert_eq!(
        r,
        Err(Error::FailedToSendRequest { message: "connection refused".to_string() })
    );
}

#[test]
fn unreadable_body_on_success_status_is_failed_to_read() {
    let client = authenticated();
    let outcome = SendOutcome::Delivered(ApiResponse { status: 200, body: None });
    let r = client.call("get_station_data", outcome);
    assert_eq!(r, Err(Error::FailedToReadResponse));
}

#[test]
fn token_body_that_does_not_decode_fails_authentication() {
    let client = NetatmoClient::new(credentials());
    let r = client.authenticate(delivered(200, "{\"access_token\":42}"));
    assert_eq!(
        r,
        Err(Error::AuthenticationFailed { cause: Box::new(Error::JsonDeserializationFailed) })
    );
}

#[test]
fn authentication_failure_keeps_the_underlying_cause() {
    let client = NetatmoClient::new(credentials());
    let body = "{\"error\":{\"code\":2,\"message\":\"Invalid client\"}}";
    let r = client.authenticate(delivered(400, body));
    assert_eq!(
        r,
        Err(Error::AuthenticationFailed {
            cause: Box::new(Error::ApiCallFailed {
                name: "refresh_token".to_string(),
                code: 2,
                message: "Invalid client".to_string(),
            }),
        })
    );
}

#[test]
fn with_token_constructs_authenticated_client() {
    let client = authenticated();
    assert_eq!(client.token().access_token, "tok-1");
}

#[test]
fn call_params_appends_the_access_token_last() {
    let client = authenticated();
    let params = vec![("device_id".to_string(), "dev-1".to_string())];
    let with_token = client.call_params(&params);
    assert_eq!(
        with_token,
        vec![
            ("device_id".to_string(), "dev-1".to_string()),
            ("access_token".to_string(), "tok-1".to_string()),
        ]
    );
}

#[test]
fn call_params_replaces_a_stale_access_token() {
    let client = authenticated();
    let params = vec![
        ("access_token".to_string(), "stale".to_string()),
        ("scale".to_string(), "max".to_string()),
    ];
    let with_token = client.call_params(&params);
    assert_eq!(
        with_token,
        vec![
            ("scale".to_string(), "max".to_string()),
            ("access_token".to_string(), "tok-1".to_string()),
        ]
    );
}

#[test]
fn decoded_token_round_trips_with_the_body_json() {
    let body = "{\"access_token\":\"tok-9\",\"refresh_token\":\"rt-9\",\"expires_in\":7200}";
    let client = NetatmoClient::new(credentials());
    let authenticated = client.authenticate(delivered(200, body)).expect("token exchange");
    let token = authenticated.token();

    // Re-encode the decoded fields and compare with the body's own JSON
    // structure: no field of the declared schema was dropped or altered.
    let mut fields = serde_json::Map::new();
    fields.insert(
        "access_token".to_string(),
        serde_json::Value::String(token.access_token.clone()),
    );
    fields.insert(
        "refresh_token".to_string(),
        serde_json::Value::String(token.refresh_token.clone()),
    );
    fields.insert(
        "expires_in".to_string(),
        serde_json::Value::Number(serde_json::Number::from(token.expires_in)),
    );
    let reencoded = serde_json::Value::Object(fields);
    let parsed: serde_json::Value = serde_json::from_str(body).expect("body is JSON");
    assert_eq!(reencoded, parsed);
}
