use payment_service::auth::{AuthError, TokenPolicy};
use payment_service::payment::{Amount, PaymentRequest, PaymentStatus};
use payment_service::service::{health, Health, PaymentService, ServiceError, STATUS_CREATED, STATUS_OK};

const SECRET: &str = "secret";

fn policy() -> TokenPolicy {
    TokenPolicy::new(SECRET.to_string(), false)
}

fn bearer(subject: i64) -> String {
    let mut claims = serde_json::Map::new();
    claims.insert("sub".to_string(), serde_json::Value::from(subject));
    claims.insert("exp".to_string(), serde_json::Value::from(4_102_444_800i64));
    let token = jsonwebtoken::encode(
        &jsonwebtoken::Header::default(),
        &serde_json::Value::Object(claims),
        &jsonwebtoken::EncodingKey::from_secret(SECRET.as_bytes()),
    )
    .unwrap();
    format!("Bearer {token}")
}

fn request(order_id: i64, amount: f64) -> PaymentRequest {
    PaymentRequest::new(order_id, Amount::from_bits(amount.to_bits()), None)
}

#[test]
fn create_payment_scenario_created() {
    let mut service = PaymentService::new();
    let header = bearer(7);
    let payment = service.create_payment(Some(header.as_bytes()), &policy(), &request(42, 19.99)).unwrap();
    assert_eq!(STATUS_CREATED, 201);
    assert_eq!(payment.order_id, 42);
    assert_eq!(payment.user_id, 7);
    assert_eq!(f64::from_bits(payment.amount.to_bits()), 19.99);
    assert_eq!(payment.currency, "USD");
    assert_eq!(payment.status.label(), "completed");
    assert_eq!(service.store().len(), 1);
    assert_eq!(service.store().get(0).id, payment.id);
}

#[test]
fn create_payment_scenario_negative_amount() {
    let mut service = PaymentService::new();
    let header = bearer(7);
    let refusal = service.create_payment(Some(header.as_bytes()), &policy(), &request(1, -5.0)).unwrap_err();
    assert!(matches!(refusal, ServiceError::InvalidAmount));
    assert_eq!(refusal.status_code(), 400);
    assert_eq!(refusal.message(), "Amount must be positive");
    assert_eq!(service.store().len(), 0);
}

#[test]
fn positive_amounts_are_recorded_exactly() {
    let mut service = PaymentService::new();
    let header = bearer(3);
    for (at, amount) in [0.01, 1.0, 19.99, 1e12, f64::MIN_POSITIVE].into_iter().enumerate() {
        let payment = service.create_payment(Some(header.as_bytes()), &policy(), &request(5, amount)).unwrap();
        assert_eq!(payment.amount.to_bits(), amount.to_bits());
        assert_eq!(payment.status, PaymentStatus::Completed);
        assert_eq!(service.store().len(), at + 1);
    }
}

#[test]
fn non_positive_amounts_are_refused_and_not_stored() {
    let mut service = PaymentService::new();
    let header = bearer(3);
    for amount in [0.0, -0.0, -0.01, -5.0, f64::NEG_INFINITY, f64::NAN] {
        let refusal = service.create_payment(Some(header.as_bytes()), &policy(), &request(5, amount)).unwrap_err();
        assert_eq!(refusal.status_code(), 400);
        assert_eq!(service.store().len(), 0);
    }
}

#[test]
fn missing_header_is_unauthorized_for_create_and_list() {
    let mut service = PaymentService::new();
    let refusal = service.create_payment(None, &policy(), &request(1, 1.0)).unwrap_err();
    assert!(matches!(refusal, ServiceError::Unauthorized(AuthError::MissingCredential)));
    assert_eq!(refusal.status_code(), 401);
    assert_eq!(refusal.message(), "Missing Authorization header");
    assert_eq!(service.store().len(), 0);
    let refusal = service.list_payments(None, &policy()).unwrap_err();
    assert!(matches!(refusal, ServiceError::Unauthorized(AuthError::MissingCredential)));
    assert_eq!(refusal.status_code(), 401);
}

#[test]
fn unreadable_header_is_malformed_for_create_and_list() {
    let mut service = PaymentService::new();
    let raw: &[u8] = &[0xff, 0xfe];
    let refusal = service.create_payment(Some(raw), &policy(), &request(1, 1.0)).unwrap_err();
    assert!(matches!(refusal, ServiceError::Unauthorized(AuthError::MalformedCredential)));
    assert_eq!(refusal.message(), "Malformed Authorization header");
    assert_eq!(service.attempts(), 1);
    let refusal = service.list_payments(Some(raw), &policy()).unwrap_err();
    assert!(matches!(refusal, ServiceError::Unauthorized(AuthError::MalformedCredential)));
}

#[test]
fn malformed_header_is_unauthorized() {
    let mut service = PaymentService::new();
    let refusal = service.create_payment(Some("Token abc".as_bytes()), &policy(), &request(1, 1.0)).unwrap_err();
    assert!(matches!(refusal, ServiceError::Unauthorized(AuthError::MalformedCredential)));
    assert_eq!(refusal.status_code(), 401);
    assert_eq!(refusal.message(), "Malformed Authorization header");
    let refusal = service.list_payments(Some("Token abc".as_bytes()), &policy()).unwrap_err();
    assert_eq!(refusal.status_code(), 401);
}

#[test]
fn invalid_token_is_unauthorized_before_the_amount_is_looked_at() {
    let mut service = PaymentService::new();
    let refusal = service.create_payment(Some("Bearer junk".as_bytes()), &policy(), &request(1, -1.0)).unwrap_err();
    assert!(matches!(refusal, ServiceError::Unauthorized(AuthError::InvalidCredential(_))));
    assert_eq!(refusal.status_code(), 401);
    assert_eq!(service.store().len(), 0);
    let refusal = service.list_payments(Some("Bearer junk".as_bytes()), &policy()).unwrap_err();
    assert_eq!(refusal.status_code(), 401);
}

#[test]
fn listing_separates_owners_and_keeps_creation_order() {
    let mut service = PaymentService::new();
    let a = bearer(1);
    let b = bearer(2);
    let mut of_a = Vec::new();
    let mut of_b = Vec::new();
    for (order, by_a) in [(10, true), (11, false), (12, true), (13, true), (14, false)] {
        let header = if by_a { &a } else { &b };
        let payment = service.create_payment(Some(header.as_bytes()), &policy(), &request(order, 2.0)).unwrap();
        if by_a {
            of_a.push(payment.id);
        } else {
            of_b.push(payment.id);
        }
    }
    assert_eq!(STATUS_OK, 200);
    let listed = service.list_payments(Some(a.as_bytes()), &policy()).unwrap();
    assert_eq!(listed.len(), 3);
    assert!(listed.iter().all(|p| p.user_id == 1));
    assert_eq!(listed.iter().map(|p| p.id.clone()).collect::<Vec<_>>(), of_a);
    assert_eq!(listed.iter().map(|p| p.order_id).collect::<Vec<_>>(), vec![10, 12, 13]);
    let listed = service.list_payments(Some(b.as_bytes()), &policy()).unwrap();
    assert_eq!(listed.iter().map(|p| p.id.clone()).collect::<Vec<_>>(), of_b);
    assert!(service.list_payments(Some(bearer(3).as_bytes()), &policy()).unwrap().is_empty());
}

#[test]
fn every_attempt_is_counted() {
    let mut service = PaymentService::new();
    assert_eq!(service.attempts(), 0);
    let header = bearer(1);
    assert!(service.create_payment(Some(header.as_bytes()), &policy(), &request(1, 1.0)).is_ok());
    assert_eq!(service.attempts(), 1);
    assert!(service.create_payment(None, &policy(), &request(1, 1.0)).is_err());
    assert_eq!(service.attempts(), 2);
    assert!(service.create_payment(Some("Basic x".as_bytes()), &policy(), &request(1, 1.0)).is_err());
    assert_eq!(service.attempts(), 3);
    assert!(service.create_payment(Some("Bearer x".as_bytes()), &policy(), &request(1, 1.0)).is_err());
    assert_eq!(service.attempts(), 4);
    assert!(service.create_payment(Some(header.as_bytes()), &policy(), &request(1, 0.0)).is_err());
    assert_eq!(service.attempts(), 5);
    assert!(service.list_payments(Some(header.as_bytes()), &policy()).is_ok());
    assert_eq!(service.attempts(), 5);
    assert_eq!(service.store().len(), 1);
}

#[test]
fn create_payment_as_follows_the_caller() {
    let mut service = PaymentService::new();
    let payment = service.create_payment_as(Ok(11), &request(8, 3.5)).unwrap();
    assert_eq!(payment.user_id, 11);
    assert_eq!(payment.order_id, 8);
    let refusal = service
        .create_payment_as(Err(AuthError::InvalidCredential("bad".to_string())), &request(8, 3.5))
        .unwrap_err();
    assert_eq!(refusal.message(), "Invalid token: bad");
    assert_eq!(service.attempts(), 2);
    assert_eq!(service.list_payments_as(Ok(11)).unwrap().len(), 1);
    assert!(service.list_payments_as(Ok(12)).unwrap().is_empty());
    let refusal = service.list_payments_as(Err(AuthError::MissingCredential)).unwrap_err();
    assert_eq!(refusal.status_code(), 401);
}

#[test]
fn requested_currency_is_kept() {
    let mut service = PaymentService::new();
    let asked = PaymentRequest::new(1, Amount::from_bits(1.0f64.to_bits()), Some("EUR".to_string()));
    let payment = service.create_payment_as(Ok(1), &asked).unwrap();
    assert_eq!(payment.currency, "EUR");
}

#[test]
fn identifiers_are_fresh_and_hyphenated() {
    let mut service = PaymentService::new();
    let first = service.create_payment_as(Ok(1), &request(1, 1.0)).unwrap();
    let second = service.create_payment_as(Ok(1), &request(1, 1.0)).unwrap();
    assert_eq!(first.id.chars().count(), 36);
    assert_eq!(second.id.chars().count(), 36);
    assert_ne!(first.id, second.id);
    assert!(uuid::Uuid::parse_str(&first.id).is_ok());
}

#[test]
fn creation_time_is_an_rfc3339_timestamp() {
    let mut service = PaymentService::new();
    let payment = service.create_payment_as(Ok(1), &request(1, 1.0)).unwrap();
    assert!(payment.created_at.chars().count() >= 25);
    let parsed = chrono::DateTime::parse_from_rfc3339(&payment.created_at).unwrap();
    assert_eq!(parsed.offset().local_minus_utc(), 0);
}

#[test]
fn health_reports_the_service() {
    let answer = health();
    assert_eq!(answer.status, "ok");
    assert_eq!(answer.service, "payment-service");
    assert!(answer.timestamp.chars().count() >= 25);
    assert!(chrono::DateTime::parse_from_rfc3339(&answer.timestamp).is_ok());
    let answer = Health::at("2024-01-01T00:00:00+00:00".to_string());
    assert_eq!(answer.status, "ok");
    assert_eq!(answer.service, "payment-service");
    assert_eq!(answer.timestamp, "2024-01-01T00:00:00+00:00");
}
