use payrex::resources::billing_statement_line_items::CreateBillingStatementLineItem;
use payrex::resources::billing_statement_line_items::UpdateBillingStatementLineItem;
use payrex::resources::billing_statements::CreateBillingStatement;
use payrex::resources::billing_statements::PaymentSettings;
use payrex::resources::checkout_sessions::CheckoutSessionLineItem;
use payrex::resources::checkout_sessions::CreateCheckoutSession;
use payrex::resources::customers::CreateCustomer;
use payrex::resources::customers::CustomerListParams;
use payrex::resources::customers::UpdateCustomer;
use payrex::resources::payment_intents::CapturePaymentIntent;
use payrex::resources::payment_intents::CreatePaymentIntent;
use payrex::resources::payments::UpdatePayment;
use payrex::resources::refunds::CreateRefund;
use payrex::resources::refunds::RefundReason;
use payrex::resources::webhooks::CreateWebhook;
use payrex::resources::webhooks::UpdateWebhook;
use payrex::types::BillingStatementId;
use payrex::types::CaptureMethod;
use payrex::types::CardOptions;
use payrex::types::CheckoutSessionEvent;
use payrex::types::Currency;
use payrex::types::CustomerId;
use payrex::types::EventType;
use payrex::types::ListParams;
use payrex::types::Metadata;
use payrex::types::PaymentId;
use payrex::types::PaymentMethod;
use payrex::types::PaymentMethodOptions;

#[test]
fn test_create_billing_statement_line_item_builder() {
    let params = CreateBillingStatementLineItem::new(
        BillingStatementId::new_unchecked("bstm_1"),
        "Test item",
        1500,
        2,
    );
    assert_eq!(params.billing_statement_id.as_str(), "bstm_1");
    assert_eq!(params.description, "Test item");
    assert_eq!(params.unit_price, 1500);
    assert_eq!(params.quantity, 2);
}

#[test]
fn test_update_billing_statement_line_item_builder() {
    let params = UpdateBillingStatementLineItem::new()
        .description("Updated")
        .unit_price(2000)
        .quantity(3);
    assert_eq!(params.description.as_deref(), Some("Updated"));
    assert_eq!(params.unit_price, Some(2000));
    assert_eq!(params.quantity, Some(3));
}

#[test]
fn test_create_billing_statement_builder() {
    let mut metadata = Metadata::new();
    metadata.insert("k", "v");

    let settings = PaymentSettings { payment_methods: vec![PaymentMethod::QRPh] };

    let params = CreateBillingStatement::new(CustomerId::new_unchecked("cus_001"), Currency::PHP)
        .payment_settings(settings.clone())
        .billing_details_collection("always")
        .description("desc")
        .metadata(metadata.clone());

    assert_eq!(params.customer_id.as_str(), "cus_001");
    assert_eq!(params.currency, Currency::PHP);
    assert_eq!(params.payment_settings, Some(settings));
    assert_eq!(params.billing_details_collection.as_deref(), Some("always"));
    assert_eq!(params.description.as_deref(), Some("desc"));
    assert_eq!(params.metadata.unwrap().get("k"), Some("v"));
}

#[test]
fn test_checkout_session_line_item_builder() {
    let item = CheckoutSessionLineItem::new("Test item", 1500, 2);
    assert_eq!(item.name, "Test item".to_string());
    assert_eq!(item.amount, 1500);
    assert_eq!(item.quantity, 2);
    assert!(item.description.is_none());
    assert!(item.image.is_none());

    let item = item.description("Desc").image("img_url");
    assert_eq!(item.description.as_deref(), Some("Desc"));
    assert_eq!(item.image.as_deref(), Some("img_url"));
}

#[test]
fn test_create_checkout_session_builder() {
    let line_item = CheckoutSessionLineItem::new("Item A", 1000, 1);
    let payment_methods = vec![PaymentMethod::Card];
    let params = CreateCheckoutSession::new(
        Currency::PHP,
        vec![line_item.clone()],
        "https://success",
        "https://cancel",
        payment_methods.clone(),
    );

    assert_eq!(params.currency, Currency::PHP);
    assert_eq!(params.line_items, vec![line_item]);
    assert_eq!(params.success_url, "https://success".to_string());
    assert_eq!(params.cancel_url, "https://cancel".to_string());
    assert_eq!(params.payment_methods, payment_methods);
    assert!(params.customer_reference_id.is_none());
    assert!(params.payment_method_options.is_none());
    assert!(params.expires_at.is_none());
    assert!(params.billing_details_collection.is_none());
    assert!(params.submit_type.is_none());
    assert!(params.description.is_none());
    assert!(params.metadata.is_none());
}

#[test]
fn test_create_customer_builder() {
    let mut metadata = Metadata::new();
    metadata.insert("order_id".to_string(), "12345".to_string());
    let params = CreateCustomer::new(
        Currency::PHP,
        "test@example.com".to_string(),
        "Test User".to_string(),
    )
    .billing_statement_prefix("PKYG9MA2")
    .next_billing_statement_sequence_number("002")
    .metadata(metadata.clone());
    assert_eq!(params.currency, Currency::PHP);
    assert_eq!(params.email, "test@example.com".to_string());
    assert_eq!(params.name, "Test User".to_string());
    assert_eq!(params.billing_statement_prefix, Some("PKYG9MA2".to_string()));
    assert_eq!(params.next_billing_statement_sequence_number, Some("002".to_string()));
    assert_eq!(params.metadata, Some(metadata));
}

#[test]
fn test_update_customer_builder() {
    let mut metadata = Metadata::new();
    metadata.insert("key".to_string(), "value".to_string());
    let params = UpdateCustomer::new()
        .currency(Currency::PHP)
        .email("user@example.com")
        .name("User")
        .billing_statement_prefix("BS")
        .next_billing_statement_sequence_number("003")
        .metadata(metadata.clone());
    assert_eq!(params.currency, Some(Currency::PHP));
    assert_eq!(params.email, Some("user@example.com".to_string()));
    assert_eq!(params.name, Some("User".to_string()));
    assert_eq!(params.billing_statement_prefix, Some("BS".to_string()));
    assert_eq!(params.next_billing_statement_sequence_number, Some("003".to_string()));
    assert_eq!(params.metadata, Some(metadata));
}

#[test]
fn test_customer_list_params_builder() {
    let mut metadata = Metadata::new();
    metadata.insert("key", "value");
    let mut params = CustomerListParams::new()
        .name("Name")
        .email("user@example.com")
        .metadata(metadata.clone());
    params.list_params = ListParams::new()
        .limit(20)
        .starting_after("cus_abc")
        .ending_before("cus_def");
    assert_eq!(params.list_params.limit, Some(20));
    assert_eq!(params.list_params.starting_after.as_deref(), Some("cus_abc"));
    assert_eq!(params.list_params.ending_before.as_deref(), Some("cus_def"));
    assert_eq!(params.name, Some("Name".to_string()));
    assert_eq!(params.email, Some("user@example.com".to_string()));
    assert_eq!(params.metadata.unwrap().get("key"), Some("value"));
}

#[test]
fn test_create_payment_intent_builder() {
    let payment_methods = &[PaymentMethod::Card, PaymentMethod::GCash];
    let params = CreatePaymentIntent::new(10000, Currency::PHP, payment_methods)
        .description("Test payment")
        .capture_method(CaptureMethod::Manual);

    assert_eq!(params.amount, 10000);
    assert_eq!(params.currency, Currency::PHP);
    assert_eq!(params.payment_methods, vec![PaymentMethod::Card, PaymentMethod::GCash]);
    assert_eq!(params.description, Some("Test payment".to_string()));
    assert_eq!(params.capture_method, Some(CaptureMethod::Manual));
}

#[test]
fn test_create_payment_intent_with_all_options() {
    let payment_methods = &[PaymentMethod::Card];
    let mut metadata = Metadata::new();
    metadata.insert("order_id", "12345");

    let card_options = CardOptions {
        capture_type: Some(CaptureMethod::Manual),
        allowed_bins: Some(vec!["123456".to_string()]),
        allowed_funding: Some(vec!["credit".to_string()]),
    };

    let payment_method_options = PaymentMethodOptions { card: Some(card_options) };

    let params = CreatePaymentIntent::new(10000, Currency::PHP, payment_methods)
        .description("Test payment")
        .metadata(metadata.clone())
        .capture_method(CaptureMethod::Manual)
        .payment_method_options(payment_method_options.clone())
        .statement_descriptor("TEST MERCHANT")
        .return_url("https://example.com/return");

    assert_eq!(params.amount, 10000);
    assert_eq!(params.description, Some("Test payment".to_string()));
    assert_eq!(params.metadata, Some(metadata));
    assert_eq!(params.capture_method, Some(CaptureMethod::Manual));
    assert!(params.payment_method_options.is_some());
    assert_eq!(params.statement_descriptor, Some("TEST MERCHANT".to_string()));
    assert_eq!(params.return_url, Some("https://example.com/return".to_string()));
}

#[test]
fn test_capture_payment_intent() {
    let params = CapturePaymentIntent::new(5000);
    assert_eq!(params.amount, 5000);
}

#[test]
fn test_update_payment_builder() {
    let mut metadata = Metadata::new();
    metadata.insert("order_id".to_string(), "12345".to_string());

    let params = UpdatePayment::new().description("Test payment").metadata(metadata.clone());

    assert_eq!(params.description, Some("Test payment".to_string()));
    assert_eq!(params.metadata, Some(metadata));
}

#[test]
fn test_create_refund_builder() {
    let mut metadata = Metadata::new();
    metadata.insert("order", "1");

    let params = CreateRefund::new(
        PaymentId::new_unchecked("pay_abc"),
        123,
        Currency::PHP,
        RefundReason::WrongProductReceived,
    )
    .metadata(metadata.clone())
    .remarks("note")
    .description("desc");
    assert_eq!(params.payment_id.as_str(), "pay_abc");
    assert_eq!(params.amount, 123);
    assert_eq!(params.currency, Currency::PHP);
    assert_eq!(params.reason, RefundReason::WrongProductReceived);
    assert_eq!(params.metadata.unwrap().get("order"), Some("1"));
    assert_eq!(params.remarks, Some("note".to_string()));
    assert_eq!(params.description, Some("desc".to_string()));
}

#[test]
fn test_create_webhook_builder() {
    let events = vec![EventType::CheckoutSession(CheckoutSessionEvent::Expired)];
    let params = CreateWebhook::new("https://example.com", events.clone());

    assert_eq!(params.url, "https://example.com".to_string());
    assert_eq!(params.events, events);
    assert!(params.description.is_none());
}

#[test]
fn test_update_webhook_builder() {
    let events = vec![EventType::CheckoutSession(CheckoutSessionEvent::Expired)];
    let params = UpdateWebhook::new()
        .url("https://example.com")
        .events(events.clone())
        .description("desc");

    assert_eq!(params.url.as_deref(), Some("https://example.com"));
    assert_eq!(params.events, Some(events));
    assert_eq!(params.description.as_deref(), Some("desc"));
}
