use mailrelay::config::{parse_config, Config};
use mailrelay::error::RelayError;
use mailrelay::extract::extract_message;
use mailrelay::pipeline::handle_message;
use mailrelay::validate::is_authorized;

fn test_config(allow: Vec<&str>) -> Config {
    let mut lines: Vec<Vec<u8>> = vec![
        b"AC123".to_vec(),
        b"key".to_vec(),
        b"secret".to_vec(),
        b"+15550001".to_vec(),
        b"+15550002".to_vec(),
    ];
    for a in allow {
        lines.push(a.as_bytes().to_vec());
    }
    let config = parse_config(lines).expect("five lines are present");
    assert!(config.is_wf());
    config
}

#[test]
fn allowed_sender_forwards_body() {
    let config = test_config(vec!["alice@example.com"]);
    let input = b"From: alice@example.com\r\n\r\nHello".to_vec();
    let req = handle_message(&config, input).expect("authorized message goes through");
    assert_eq!(req.body, b"Hello".to_vec());
    assert_eq!(
        req.url,
        b"https://api.twilio.com/2010-04-01/Accounts/AC123/Messages.json".to_vec()
    );
    assert_eq!(req.auth, b"Basic a2V5OnNlY3JldA==".to_vec());
    assert_eq!(req.to, b"+15550002".to_vec());
    assert_eq!(req.from, b"+15550001".to_vec());
}

#[test]
fn unauthorized_sender_is_rejected() {
    let config = test_config(vec!["alice@example.com"]);
    let input = b"From: bob@evil.com\r\n\r\nHello".to_vec();
    let r = handle_message(&config, input);
    assert_eq!(r.err(), Some(RelayError::UnauthorizedSenderError));
}

#[test]
fn undecodable_body_uses_placeholder() {
    let config = test_config(vec!["alice@example.com"]);
    let input = b"From: alice@example.com\r\nContent-Type: application/octet-stream\r\n\r\n\x00\x01\x02"
        .to_vec();
    let req = handle_message(&config, input).expect("sender is allow-listed");
    assert_eq!(req.body, b"error: failed to parse body".to_vec());
}

#[test]
fn missing_sender_is_no_sender_error() {
    let config = test_config(vec!["alice@example.com"]);
    let input = b"Subject: hi\r\n\r\nHello".to_vec();
    let r = handle_message(&config, input);
    assert_eq!(r.err(), Some(RelayError::NoSenderError));
}

#[test]
fn garbage_input_is_parse_error_and_next_message_still_works() {
    let config = test_config(vec!["alice@example.com"]);
    let garbage = vec![0u8, 1, 2, 3, 255, 254];
    let r = handle_message(&config, garbage);
    assert!(r.is_err());
    // The pipeline is unharmed: the next connection's bytes still go through.
    let input = b"From: alice@example.com\r\n\r\nHello".to_vec();
    let req = handle_message(&config, input).expect("next message goes through");
    assert_eq!(req.body, b"Hello".to_vec());
}

#[test]
fn only_first_100000_bytes_are_considered() {
    let config = test_config(vec!["alice@example.com"]);
    let mut head = b"From: alice@example.com\r\n\r\n".to_vec();
    while head.len() < 100_000 {
        head.push(b'a');
    }
    let mut input1 = head.clone();
    let mut input2 = head.clone();
    for _ in 0..5000 {
        input1.push(b'x');
        input2.push(b'y');
    }
    let r1 = handle_message(&config, input1);
    let r2 = handle_message(&config, input2);
    let req1 = r1.expect("authorized message goes through");
    let req2 = r2.expect("authorized message goes through");
    assert_eq!(req1.body, req2.body);
}

#[test]
fn body_preview_is_capped_at_1000() {
    let config = test_config(vec!["alice@example.com"]);
    let mut input = b"From: alice@example.com\r\n\r\n".to_vec();
    for _ in 0..5000 {
        input.push(b'b');
    }
    let req = handle_message(&config, input).expect("authorized message goes through");
    assert!(req.body.len() <= 1000);
    // The leading portion is kept.
    assert!(req.body.starts_with(b"bbb"));
}

#[test]
fn allow_list_order_does_not_change_the_verdict() {
    let sender = b"alice@example.com".to_vec();
    let a1: Vec<Vec<u8>> = vec![b"nobody".to_vec(), b"example.com".to_vec()];
    let a2: Vec<Vec<u8>> = vec![b"example.com".to_vec(), b"nobody".to_vec()];
    assert_eq!(is_authorized(&sender, &a1), is_authorized(&sender, &a2));
    assert!(is_authorized(&sender, &a1));
    let b1: Vec<Vec<u8>> = vec![b"bob".to_vec(), b"carol".to_vec()];
    let b2: Vec<Vec<u8>> = vec![b"carol".to_vec(), b"bob".to_vec()];
    assert_eq!(is_authorized(&sender, &b1), is_authorized(&sender, &b2));
    assert!(!is_authorized(&sender, &b1));
}

#[test]
fn substring_matching_is_case_sensitive_and_exact() {
    let sender = b"alice@example.com".to_vec();
    assert!(is_authorized(&sender, &vec![b"alice".to_vec()]));
    assert!(is_authorized(&sender, &vec![b"@example.".to_vec()]));
    assert!(!is_authorized(&sender, &vec![b"Alice".to_vec()]));
    assert!(!is_authorized(&sender, &vec![b"alicx".to_vec()]));
    // The empty entry occurs in every sender.
    assert!(is_authorized(&sender, &vec![b"".to_vec()]));
    // An empty allow-list authorizes nobody.
    assert!(!is_authorized(&sender, &vec![]));
}

#[test]
fn empty_allow_list_rejects_with_unauthorized() {
    let config = test_config(vec![]);
    let input = b"From: alice@example.com\r\n\r\nHello".to_vec();
    let r = handle_message(&config, input);
    assert_eq!(r.err(), Some(RelayError::UnauthorizedSenderError));
}

#[test]
fn extract_reports_sender_and_preview() {
    let input = b"From: Alice <alice@example.com>\r\n\r\nHi there".to_vec();
    let msg = extract_message(input).expect("message parses");
    assert_eq!(msg.sender, b"alice@example.com".to_vec());
    assert_eq!(msg.preview, b"Hi there".to_vec());
}

#[test]
fn config_parsing_takes_fields_in_order() {
    let config = test_config(vec!["a@x", "b@y"]);
    assert_eq!(config.account, b"AC123".to_vec());
    assert_eq!(config.key, b"key".to_vec());
    assert_eq!(config.secret, b"secret".to_vec());
    assert_eq!(config.from, b"+15550001".to_vec());
    assert_eq!(config.to, b"+15550002".to_vec());
    assert_eq!(config.valid_emails, vec![b"a@x".to_vec(), b"b@y".to_vec()]);
}

#[test]
fn config_with_missing_fields_is_rejected() {
    let lines: Vec<Vec<u8>> = vec![b"AC123".to_vec(), b"key".to_vec(), b"secret".to_vec()];
    assert!(parse_config(lines).is_none());
    let empty: Vec<Vec<u8>> = vec![];
    assert!(parse_config(empty).is_none());
}

#[test]
fn error_descriptions_are_fixed() {
    assert_eq!(RelayError::ReadError.describe(), "failed to read message");
    assert_eq!(RelayError::ParseError.describe(), "failed to parse email");
    assert_eq!(RelayError::NoSenderError.describe(), "failed to parse sender");
    assert_eq!(RelayError::UnauthorizedSenderError.describe(), "unknown sender");
    assert_eq!(
        RelayError::NotificationError.describe(),
        "failed to send notification"
    );
}

#[test]
fn credential_header_is_base64_of_key_colon_secret() {
    let mut config = test_config(vec!["alice@example.com"]);
    config.key = b"k".to_vec();
    config.secret = b"s".to_vec();
    let input = b"From: alice@example.com\r\n\r\nHello".to_vec();
    let req = handle_message(&config, input).expect("authorized message goes through");
    assert_eq!(req.auth, b"Basic azpz".to_vec());
}
