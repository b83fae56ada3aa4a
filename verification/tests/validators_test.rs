use clicksend::clicksend::ClickSendApi;
use clicksend::error::AppError;
use clicksend::mock::MockClickSendClient;
use clicksend::validators::{validate_e164, validate_sender_logic};

#[test]
fn e164_accepts_well_formed_numbers() {
    assert!(validate_e164("+1234567890").is_ok());
    assert!(validate_e164("+12").is_ok());
    assert!(validate_e164("+123456789012345").is_ok());
    assert!(validate_e164("+999999999999999").is_ok());
}

#[test]
fn e164_rejects_missing_plus() {
    let r = validate_e164("1234567890");
    match r {
        Err(AppError::InvalidPhoneNumber(v)) => assert_eq!(v, "1234567890"),
        _ => panic!("expected InvalidPhoneNumber"),
    }
}

#[test]
fn e164_rejects_leading_zero() {
    let r = validate_e164("+0123456789");
    assert!(matches!(r, Err(AppError::InvalidPhoneNumber(_))));
}

#[test]
fn e164_rejects_too_long() {
    // 16 digits after the plus: one over the E.164 maximum.
    let r = validate_e164("+1234567890123456");
    assert!(matches!(r, Err(AppError::InvalidPhoneNumber(_))));
}

#[test]
fn e164_rejects_non_digits_and_short_strings() {
    assert!(matches!(
        validate_e164("+12345a7890"),
        Err(AppError::InvalidPhoneNumber(_))
    ));
    assert!(matches!(
        validate_e164("+1"),
        Err(AppError::InvalidPhoneNumber(_))
    ));
    assert!(matches!(
        validate_e164(""),
        Err(AppError::InvalidPhoneNumber(_))
    ));
    assert!(matches!(
        validate_e164("notanumber"),
        Err(AppError::InvalidPhoneNumber(_))
    ));
}

#[test]
fn authorize_verified_number_succeeds() {
    let client = MockClickSendClient::new();
    assert!(client.validate_sender("+1234567890").is_ok());
}

#[test]
fn authorize_unknown_number_fails() {
    let client = MockClickSendClient::new();
    let r = client.validate_sender("+19999999999");
    match r {
        Err(AppError::InvalidSender(v)) => assert_eq!(v, "+19999999999"),
        _ => panic!("expected InvalidSender"),
    }
}

#[test]
fn authorize_alpha_tag_succeeds() {
    let client = MockClickSendClient::new();
    assert!(client.validate_sender("MYBUSINESS").is_ok());
}

#[test]
fn authorize_alpha_tag_is_case_sensitive() {
    let client = MockClickSendClient::new();
    let r = client.validate_sender("myBusiness");
    match r {
        Err(AppError::InvalidSender(v)) => assert_eq!(v, "myBusiness"),
        _ => panic!("expected InvalidSender"),
    }
}

#[test]
fn authorize_dedicated_number_succeeds() {
    let client = MockClickSendClient::new();
    assert!(client.validate_sender("+11234567890").is_ok());
}

#[test]
fn sender_logic_checks_number_format_before_directory() {
    let verified = vec!["+1234567890".to_string()];
    let dedicated: Vec<String> = Vec::new();
    let alpha: Vec<String> = Vec::new();
    let r = validate_sender_logic("+0123", &verified, &dedicated, &alpha);
    assert!(matches!(r, Err(AppError::InvalidPhoneNumber(_))));
    let ok = validate_sender_logic("+1234567890", &verified, &dedicated, &alpha);
    assert!(ok.is_ok());
}
