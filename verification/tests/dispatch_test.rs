use clicksend::api::MessageService;
use clicksend::clicksend::ClickSendApi;
use clicksend::error::AppError;
use clicksend::mock::MockClickSendClient;

#[test]
fn direct_send_with_valid_recipient_and_sender_succeeds() {
    let mut client = MockClickSendClient::new();
    let r = client.send_single_sms("+123456789", "+1234567890", "hello");
    assert!(r.is_ok());
    assert_eq!(client.sent_messages.len(), 1);
    assert_eq!(client.sent_messages[0].recipient, "+123456789");
    assert_eq!(client.sent_messages[0].sender, "+1234567890");
    assert_eq!(client.sent_messages[0].message, "hello");
}

#[test]
fn direct_send_with_bad_recipient_never_reaches_the_provider() {
    let mut client = MockClickSendClient::new();
    let r = client.send_single_sms("notanumber", "+1234567890", "hello");
    match r {
        Err(AppError::InvalidPhoneNumber(v)) => assert_eq!(v, "notanumber"),
        _ => panic!("expected InvalidPhoneNumber"),
    }
    assert!(client.sent_messages.is_empty());
}

#[test]
fn direct_send_with_unauthorized_sender_sends_nothing() {
    let mut client = MockClickSendClient::new();
    let r = client.send_single_sms("+123456789", "+19999999999", "hello");
    assert!(matches!(r, Err(AppError::InvalidSender(_))));
    assert!(client.sent_messages.is_empty());
}

#[test]
fn message_service_delegates_to_its_client() {
    let mut service = MessageService::new(MockClickSendClient::new());
    assert!(service
        .send_single_sms("+123456789", "MYBUSINESS", "hello")
        .is_ok());
    let r = service.send_single_sms("+123456789", "NOSUCHTAG", "hello");
    assert!(matches!(r, Err(AppError::InvalidSender(_))));
}

#[test]
fn mock_directory_contents_are_fixed() {
    let client = MockClickSendClient::new();
    assert_eq!(
        client.fetch_verified_numbers().unwrap(),
        vec!["+1234567890".to_string(), "+1987654321".to_string()]
    );
    assert_eq!(
        client.fetch_dedicated_numbers().unwrap(),
        vec!["+11234567890".to_string()]
    );
    assert_eq!(
        client.fetch_alpha_tags().unwrap(),
        vec!["MYBUSINESS".to_string(), "ALPHAEXAMPLE".to_string()]
    );
}
