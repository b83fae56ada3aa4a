use clicksend::client::{
    basic_auth_header_value, construct_url, fetch_alpha_tags, map_dedicated_numbers_response,
    map_own_numbers_response, map_send_response, sms_send_payload, HttpOutcome,
};
use clicksend::error::AppError;

#[test]
fn provider_error_response_surfaces_status_and_body() {
    let r = map_send_response(HttpOutcome::Response {
        status: 400,
        body: "bad number".to_string(),
    });
    match r {
        Err(AppError::MessageSendFailed(m)) => {
            assert_eq!(m, "Failed with status 400: bad number")
        }
        _ => panic!("expected MessageSendFailed"),
    }
}

#[test]
fn provider_success_class_responses_are_ok() {
    for status in [200u16, 201, 204, 299] {
        let r = map_send_response(HttpOutcome::Response {
            status,
            body: String::new(),
        });
        assert!(r.is_ok());
    }
    for status in [199u16, 300, 301, 500] {
        let r = map_send_response(HttpOutcome::Response {
            status,
            body: String::new(),
        });
        assert!(r.is_err());
    }
}

#[test]
fn transport_failure_surfaces_its_own_text() {
    let r = map_send_response(HttpOutcome::TransportFailure {
        detail: "connection refused".to_string(),
    });
    match r {
        Err(AppError::MessageSendFailed(m)) => assert_eq!(m, "connection refused"),
        _ => panic!("expected MessageSendFailed"),
    }
}

#[test]
fn directory_fetch_degrades_to_empty_on_parse_failure() {
    let ok = map_own_numbers_response(
        HttpOutcome::Response {
            status: 200,
            body: "{}".to_string(),
        },
        Some(vec!["+1234567890".to_string()]),
    );
    assert_eq!(ok.unwrap(), vec!["+1234567890".to_string()]);

    let fallback = map_own_numbers_response(
        HttpOutcome::Response {
            status: 200,
            body: "not json".to_string(),
        },
        None,
    );
    assert!(fallback.unwrap().is_empty());
}

#[test]
fn directory_fetch_errors_carry_their_prefixes() {
    let own = map_own_numbers_response(
        HttpOutcome::Response {
            status: 404,
            body: "nope".to_string(),
        },
        None,
    );
    match own {
        Err(AppError::MessageSendFailed(m)) => assert_eq!(m, "Failed with status 404: nope"),
        _ => panic!("expected MessageSendFailed"),
    }
    let dedicated = map_dedicated_numbers_response(
        HttpOutcome::Response {
            status: 404,
            body: "nope".to_string(),
        },
        None,
    );
    match dedicated {
        Err(AppError::MessageSendFailed(m)) => {
            assert_eq!(m, "Failed to fetch verified numbers 404: nope")
        }
        _ => panic!("expected MessageSendFailed"),
    }
}

#[test]
fn alpha_tags_have_no_endpoint_and_fetch_empty() {
    assert!(fetch_alpha_tags().unwrap().is_empty());
}

#[test]
fn url_is_base_version_endpoint() {
    assert_eq!(
        construct_url("https://rest.clicksend.com", "v3", "sms/send"),
        "https://rest.clicksend.com/v3/sms/send"
    );
}

#[test]
fn basic_auth_header_encodes_the_credentials() {
    assert_eq!(basic_auth_header_value("user", "key"), "Basic dXNlcjprZXk=");
}

#[test]
fn send_payload_has_the_provider_envelope() {
    assert_eq!(
        sms_send_payload("+123456789", "+1234567890", "hello"),
        "{\"messages\":[{\"body\":\"hello\",\"to\":\"+123456789\",\"from\":\"+1234567890\",\"source\":\"api\"}]}"
    );
}

#[test]
fn send_payload_escapes_the_message() {
    let payload = sms_send_payload("+123456789", "+1234567890", "he said \"hi\\bye\"\n");
    assert_eq!(
        payload,
        "{\"messages\":[{\"body\":\"he said \\\"hi\\\\bye\\\"\\n\",\"to\":\"+123456789\",\"from\":\"+1234567890\",\"source\":\"api\"}]}"
    );
}
