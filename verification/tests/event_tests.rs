use payrex::types::BillingStatementEvent;
use payrex::types::CheckoutSessionEvent;
use payrex::types::EventType;
use payrex::types::PaymentIntentEvent;
use payrex::types::PayoutEvent;
use payrex::types::RefundEvent;
use payrex::types::parse_event_type;

#[test]
fn test_event_type_serialization_and_as_str() {
    let et = EventType::BillingStatement(BillingStatementEvent::Created);
    assert_eq!(et.as_str(), "billing_statement.created");

    let et2 = EventType::Refund(RefundEvent::Updated);
    assert_eq!(et2.as_str(), "refund.updated");
}

#[test]
fn test_event_type_as_str_multiword() {
    assert_eq!(
        EventType::BillingStatement(BillingStatementEvent::MarkedUncollectible).as_str(),
        "billing_statement.marked_uncollectible"
    );
    assert_eq!(
        EventType::BillingStatement(BillingStatementEvent::WillBeDue).as_str(),
        "billing_statement.will_be_due"
    );
    assert_eq!(
        EventType::PaymentIntent(PaymentIntentEvent::AwaitingCapture).as_str(),
        "payment_intent.awaiting_capture"
    );
    assert_eq!(
        EventType::CheckoutSession(CheckoutSessionEvent::Expired).as_str(),
        "checkout_session.expired"
    );
    assert_eq!(EventType::Payout(PayoutEvent::Deposited).as_str(), "payout.deposited");
}

#[test]
fn test_parse_event_type() {
    assert_eq!(
        parse_event_type("billing_statement.created"),
        Some(EventType::BillingStatement(BillingStatementEvent::Created))
    );
    assert_eq!(
        parse_event_type("payment_intent.succeeded"),
        Some(EventType::PaymentIntent(PaymentIntentEvent::Succeeded))
    );
    assert_eq!(
        parse_event_type("refund.created"),
        Some(EventType::Refund(RefundEvent::Created))
    );
}

#[test]
fn test_parse_event_type_rejects_bad_shapes() {
    assert_eq!(parse_event_type(""), None);
    assert_eq!(parse_event_type("refund"), None);
    assert_eq!(parse_event_type("refund.created.extra"), None);
    assert_eq!(parse_event_type("unknown_family.created"), None);
    assert_eq!(parse_event_type("refund.exploded"), None);
    assert_eq!(parse_event_type("."), None);
    assert_eq!(parse_event_type("checkout_session.Expired"), None);
}

#[test]
fn test_event_type_round_trips() {
    let all = [
        EventType::BillingStatement(BillingStatementEvent::Created),
        EventType::BillingStatement(BillingStatementEvent::Updated),
        EventType::BillingStatement(BillingStatementEvent::Deleted),
        EventType::BillingStatement(BillingStatementEvent::Finalized),
        EventType::BillingStatement(BillingStatementEvent::Sent),
        EventType::BillingStatement(BillingStatementEvent::MarkedUncollectible),
        EventType::BillingStatement(BillingStatementEvent::Voided),
        EventType::BillingStatement(BillingStatementEvent::Paid),
        EventType::BillingStatement(BillingStatementEvent::WillBeDue),
        EventType::BillingStatement(BillingStatementEvent::Overdue),
        EventType::BillingStatementLineItem(payrex::types::BillingStatementLineItemEvent::Created),
        EventType::BillingStatementLineItem(payrex::types::BillingStatementLineItemEvent::Updated),
        EventType::BillingStatementLineItem(payrex::types::BillingStatementLineItemEvent::Deleted),
        EventType::CheckoutSession(CheckoutSessionEvent::Expired),
        EventType::PaymentIntent(PaymentIntentEvent::AwaitingCapture),
        EventType::PaymentIntent(PaymentIntentEvent::Succeeded),
        EventType::Payout(PayoutEvent::Deposited),
        EventType::Refund(RefundEvent::Created),
        EventType::Refund(RefundEvent::Updated),
    ];
    for et in all {
        assert_eq!(parse_event_type(et.as_str()), Some(et));
    }
}
