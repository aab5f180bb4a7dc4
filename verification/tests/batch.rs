use lettermint::api::email::batch::IDEMPOTENCY_KEY_HEADER;
use lettermint::api::email::{BatchSendRequest, SendEmailRequest, BATCH_MAX_SIZE};

fn minimal_email(to: &str) -> SendEmailRequest {
    let mut email = SendEmailRequest::new(
        "sender@example.com".to_string(),
        vec![to.to_string()],
        "Test".to_string(),
    );
    email.text = Some("Hello".to_string());
    email
}

fn emails(n: usize) -> Vec<SendEmailRequest> {
    (0..n)
        .map(|i| minimal_email(&format!("user{i}@example.com")))
        .collect()
}

#[test]
fn new_rejects_empty() {
    assert!(BatchSendRequest::new(vec![]).is_none());
}

#[test]
fn new_rejects_over_500() {
    let emails: Vec<_> = (0..501)
        .map(|i| minimal_email(&format!("user{i}@example.com")))
        .collect();
    assert!(BatchSendRequest::new(emails).is_none());
}

#[test]
fn new_accepts_valid_batch() {
    let batch = BatchSendRequest::new(vec![
        minimal_email("a@example.com"),
        minimal_email("b@example.com"),
    ]);
    assert!(batch.is_some());
    assert_eq!(batch.unwrap().len(), 2);
}

#[test]
fn endpoint_path() {
    let batch = BatchSendRequest::new(vec![minimal_email("a@example.com")]).unwrap();
    assert_eq!(batch.endpoint(), "send/batch");
}

#[test]
fn idempotency_key_header() {
    let batch = BatchSendRequest::new(vec![minimal_email("a@example.com")])
        .unwrap()
        .with_idempotency_key("batch-key-123".to_string());

    let headers = batch.extra_headers();
    assert_eq!(headers.len(), 1);
    assert_eq!(headers[0].0, "Idempotency-Key");
    assert_eq!(headers[0].1, "batch-key-123");
}

#[test]
fn new_accepts_exactly_the_maximum() {
    let batch = BatchSendRequest::new(emails(BATCH_MAX_SIZE)).unwrap();
    assert_eq!(batch.len(), 500);
    assert!(!batch.is_empty());
}

#[test]
fn new_accepts_a_single_email() {
    let batch = BatchSendRequest::new(emails(1)).unwrap();
    assert_eq!(batch.len(), 1);
    assert!(!batch.is_empty());
}

#[test]
fn new_keeps_emails_in_order() {
    let batch = BatchSendRequest::new(vec![
        minimal_email("a@example.com"),
        minimal_email("b@example.com"),
    ])
    .unwrap();
    let kept = batch.emails();
    assert_eq!(kept[0].to, vec!["a@example.com".to_string()]);
    assert_eq!(kept[1].to, vec!["b@example.com".to_string()]);
}

#[test]
fn no_extra_headers_without_key() {
    let batch = BatchSendRequest::new(emails(3)).unwrap();
    assert!(batch.extra_headers().is_empty());
}

#[test]
fn idempotency_key_keeps_emails_and_last_key_wins() {
    let batch = BatchSendRequest::new(emails(3))
        .unwrap()
        .with_idempotency_key("first".to_string())
        .with_idempotency_key("second".to_string());
    assert_eq!(batch.len(), 3);
    let headers = batch.extra_headers();
    assert_eq!(headers.len(), 1);
    assert_eq!(headers[0].0, IDEMPOTENCY_KEY_HEADER);
    assert_eq!(headers[0].1, "second");
}

#[test]
fn body_is_the_batch_itself() {
    let batch = BatchSendRequest::new(emails(2)).unwrap();
    assert!(std::ptr::eq(batch.body(), &batch));
}

#[test]
fn clone_keeps_emails_and_key() {
    let batch = BatchSendRequest::new(emails(4))
        .unwrap()
        .with_idempotency_key("k".to_string());
    let copy = batch.clone();
    assert_eq!(copy, batch);
    assert_eq!(copy.len(), 4);
    assert_eq!(copy.extra_headers()[0].1, "k");
}

#[test]
fn new_email_has_no_optional_fields() {
    let email = SendEmailRequest::new(
        "sender@example.com".to_string(),
        vec!["recipient@example.com".to_string()],
        "Test".to_string(),
    );
    assert_eq!(email.from, "sender@example.com");
    assert_eq!(email.to, vec!["recipient@example.com".to_string()]);
    assert_eq!(email.subject, "Test");
    assert!(email.html.is_none());
    assert!(email.text.is_none());
    assert!(email.cc.is_none());
    assert!(email.bcc.is_none());
    assert!(email.reply_to.is_none());
    assert!(email.route.is_none());
    assert!(email.tag.is_none());
    assert!(email.idempotency_key.is_none());
}
