use clicksend::error::AppError;
use clicksend::queue::{sms_request_json, MockQueue};
use clicksend::shared::SmsRequest;

#[test]
fn envelope_holds_destination_and_body() {
    let sms = SmsRequest {
        phone_number: "+15551234567".to_string(),
        message: "hello".to_string(),
    };
    assert_eq!(
        sms_request_json(&sms),
        "{\"phone_number\":\"+15551234567\",\"message\":\"hello\"}"
    );
}

#[test]
fn envelope_escapes_control_and_quote_characters() {
    let sms = SmsRequest {
        phone_number: "+15551234567".to_string(),
        message: "line1\nline2\t\"quoted\" \\ \u{1}\u{1f}".to_string(),
    };
    assert_eq!(
        sms_request_json(&sms),
        "{\"phone_number\":\"+15551234567\",\"message\":\"line1\\nline2\\t\\\"quoted\\\" \\\\ \\u0001\\u001f\"}"
    );
}

#[test]
fn envelope_escapes_backspace_and_formfeed() {
    let sms = SmsRequest {
        phone_number: "+15551234567".to_string(),
        message: "a\u{8}b\u{c}c\rd".to_string(),
    };
    assert_eq!(
        sms_request_json(&sms),
        "{\"phone_number\":\"+15551234567\",\"message\":\"a\\bb\\fc\\rd\"}"
    );
}

#[test]
fn mock_queue_records_the_envelope() {
    let mut queue = MockQueue::new();
    let sms = SmsRequest {
        phone_number: "+15551234567".to_string(),
        message: "hello".to_string(),
    };
    assert!(queue.publish_message(&sms).is_ok());
    assert_eq!(queue.published.len(), 1);
    assert_eq!(
        queue.published[0],
        "{\"phone_number\":\"+15551234567\",\"message\":\"hello\"}"
    );
}

#[test]
fn error_messages_carry_their_details() {
    assert_eq!(
        AppError::InvalidPhoneNumber("abc".to_string()).message(),
        "Invalid Phone number: abc"
    );
    assert_eq!(
        AppError::InvalidSender("abc".to_string()).message(),
        "Sender ID must be either a registered alpha tag, a verified own number, or a purchased dedicated number: abc"
    );
    assert_eq!(
        AppError::MessageSendFailed("boom".to_string()).message(),
        "Failed to send message: boom"
    );
    assert_eq!(
        AppError::ClickSendApiError("boom".to_string()).message(),
        "ClickSend API Error: boom"
    );
}
