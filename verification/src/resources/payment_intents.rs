//! Payment intents: the lifecycle of collecting one payment from a customer.

use vstd::prelude::*;

use crate::types::CaptureMethod;
use crate::types::Currency;
use crate::types::Metadata;
use crate::types::PaymentIntentId;
use crate::types::PaymentMethod;
use crate::types::PaymentMethodOptions;
use crate::types::Timestamp;

verus! {

/// The action a customer must take to continue a payment.
#[derive(Debug, Clone, PartialEq, Eq)]
pub struct NextAction {
    /// The kind of action; the possible value is `redirect`.
    pub action_type: String,
    /// The URL to redirect the customer to for authentication.
    pub redirect_url: Option<String>,
}

/// The error recorded for a failed payment attempt.
#[derive(Debug, Clone, PartialEq, Eq)]
pub struct PaymentError {
    pub code: Option<String>,
    pub message: Option<String>,
    pub param: Option<String>,
}

/// The lifecycle state of a payment intent.
#[derive(Debug, Clone, Copy, PartialEq, Eq, Structural)]
pub enum PaymentIntentStatus {
    AwaitingPaymentMethod,
    RequiresPaymentMethod,
    RequiresConfirmation,
    RequiresAction,
    Processing,
    RequiresCapture,
    Cancelled,
    Succeeded,
}

/// A payment intent resource.
#[derive(Debug, Clone, PartialEq, Eq)]
pub struct PaymentIntent {
    pub id: PaymentIntentId,
    pub amount: i64,
    pub amount_received: i64,
    pub amount_capturable: i64,
    pub client_secret: String,
    pub currency: Currency,
    pub description: Option<String>,
    pub livemode: bool,
    pub metadata: Option<Metadata>,
    pub latest_payment: Option<String>,
    pub last_payment_error: Option<PaymentError>,
    pub payment_method_id: Option<String>,
    pub payment_methods: Vec<String>,
    pub payment_method_options: Option<PaymentMethodOptions>,
    pub statement_descriptor: String,
    pub status: PaymentIntentStatus,
    pub next_action: Option<NextAction>,
    pub return_url: Option<String>,
    pub capture_before_at: Option<Timestamp>,
    pub created_at: Timestamp,
    pub updated_at: Timestamp,
}

/// A payment intent as embedded in another resource, where most fields may
/// be left out.
#[derive(Debug, Clone, PartialEq, Eq)]
pub struct OptionalPaymentIntent {
    pub id: PaymentIntentId,
    pub amount: Option<i64>,
    pub currency: Option<Currency>,
    pub description: Option<String>,
    pub livemode: Option<bool>,
    pub metadata: Option<Metadata>,
    pub status: Option<PaymentIntentStatus>,
    pub created_at: Option<Timestamp>,
    pub updated_at: Option<Timestamp>,
}

/// Parameters for creating a payment intent.
#[derive(Debug, Clone, PartialEq, Eq)]
pub struct CreatePaymentIntent {
    pub amount: i64,
    pub currency: Currency,
    pub payment_methods: Vec<PaymentMethod>,
    pub description: Option<String>,
    pub metadata: Option<Metadata>,
    pub capture_method: Option<CaptureMethod>,
    pub payment_method_options: Option<PaymentMethodOptions>,
    pub statement_descriptor: Option<String>,
    pub return_url: Option<String>,
}

impl CreatePaymentIntent {
    /// Parameters for collecting the given amount with the given methods.
    pub fn new(amount: i64, currency: Currency, payment_methods: &[PaymentMethod]) -> (r: Self)
        ensures
            r.amount == amount,
            r.currency == currency,
            r.payment_methods@ == payment_methods@,
            r.description is None,
            r.metadata is None,
            r.capture_method is None,
            r.payment_method_options is None,
            r.statement_descriptor is None,
            r.return_url is None,
    {
        CreatePaymentIntent {
            amount,
            currency,
            payment_methods: vstd::slice::slice_to_vec(payment_methods),
            description: None,
            metadata: None,
            capture_method: None,
            payment_method_options: None,
            statement_descriptor: None,
            return_url: None,
        }
    }

    /// Sets the description.
    pub fn description(self, description: &str) -> (r: Self)
        ensures
            r.description matches Some(d) && d@ == description@,
            r == (CreatePaymentIntent { description: r.description, ..self }),
    {
        CreatePaymentIntent { description: Some(description.to_owned()), ..self }
    }

    /// Sets the metadata.
    pub fn metadata(self, metadata: Metadata) -> (r: Self)
        ensures
            r == (CreatePaymentIntent { metadata: Some(metadata), ..self }),
    {
        CreatePaymentIntent { metadata: Some(metadata), ..self }
    }

    /// Sets the capture method.
    pub fn capture_method(self, method: CaptureMethod) -> (r: Self)
        ensures
            r == (CreatePaymentIntent { capture_method: Some(method), ..self }),
    {
        CreatePaymentIntent { capture_method: Some(method), ..self }
    }

    /// Sets the payment method options.
    pub fn payment_method_options(self, options: PaymentMethodOptions) -> (r: Self)
        ensures
            r == (CreatePaymentIntent { payment_method_options: Some(options), ..self }),
    {
        CreatePaymentIntent { payment_method_options: Some(options), ..self }
    }

    /// Sets the statement descriptor.
    pub fn statement_descriptor(self, descriptor: &str) -> (r: Self)
        ensures
            r.statement_descriptor matches Some(d) && d@ == descriptor@,
            r == (CreatePaymentIntent { statement_descriptor: r.statement_descriptor, ..self }),
    {
        CreatePaymentIntent { statement_descriptor: Some(descriptor.to_owned()), ..self }
    }

    /// Sets the return URL.
    pub fn return_url(self, url: &str) -> (r: Self)
        ensures
            r.return_url matches Some(u) && u@ == url@,
            r == (CreatePaymentIntent { return_url: r.return_url, ..self }),
    {
        CreatePaymentIntent { return_url: Some(url.to_owned()), ..self }
    }
}

/// Parameters for capturing a held payment intent.
#[derive(Debug, Clone, PartialEq, Eq)]
pub struct CapturePaymentIntent {
    /// The amount to capture, in the smallest currency unit.
    pub amount: i64,
}

impl CapturePaymentIntent {
    /// Parameters capturing the given amount.
    pub fn new(amount: i64) -> (r: Self)
        ensures
            r.amount == amount,
    {
        CapturePaymentIntent { amount }
    }
}

} // verus!
