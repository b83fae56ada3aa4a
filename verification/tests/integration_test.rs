use clicksend::clicksend::ClickSendApi;
use clicksend::mock::MockClickSendClient;

#[test]
fn test_send_single_message() {
    let mut client = MockClickSendClient::new();
    let result = client.send_single_sms("+123456789", "+1234567890", "Test message");
    assert!(
        result.is_ok(),
        "Test failed with error: {}",
        result.err().unwrap().message()
    );
}
