//! Checkout sessions: hosted payment pages for collecting a payment.

use vstd::prelude::*;

use crate::resources::payment_intents::PaymentIntent;
use crate::types::CheckoutSessionId;
use crate::types::CheckoutSessionLineItemId;
use crate::types::Currency;
use crate::types::Metadata;
use crate::types::PaymentMethod;
use crate::types::PaymentMethodOptions;
use crate::types::Timestamp;

verus! {

/// The lifecycle state of a checkout session.
#[derive(Debug, Clone, Copy, PartialEq, Eq, Structural)]
pub enum CheckoutSessionStatus {
    Active,
    Completed,
    Expired,
}

/// One line of a checkout session.
#[derive(Debug, Clone, PartialEq, Eq)]
pub struct CheckoutSessionLineItem {
    pub id: Option<CheckoutSessionLineItemId>,
    pub name: String,
    pub amount: u64,
    pub quantity: u64,
    pub description: Option<String>,
    pub image: Option<String>,
}

impl CheckoutSessionLineItem {
    /// A line for the given item, price and quantity.
    pub fn new(name: &str, amount: u64, quantity: u64) -> (r: Self)
        ensures
            r.id is None,
            r.name@ == name@,
            r.amount == amount,
            r.quantity == quantity,
            r.description is None,
            r.image is None,
    {
        CheckoutSessionLineItem {
            id: None,
            name: name.to_owned(),
            amount,
            quantity,
            description: None,
            image: None,
        }
    }

    /// Sets the description.
    pub fn description(self, description: &str) -> (r: Self)
        ensures
            r.description matches Some(d) && d@ == description@,
            r == (CheckoutSessionLineItem { description: r.description, ..self }),
    {
        CheckoutSessionLineItem { description: Some(description.to_owned()), ..self }
    }

    /// Sets the image URL.
    pub fn image(self, image: &str) -> (r: Self)
        ensures
            r.image matches Some(i) && i@ == image@,
            r == (CheckoutSessionLineItem { image: r.image, ..self }),
    {
        CheckoutSessionLineItem { image: Some(image.to_owned()), ..self }
    }
}

/// A checkout session resource.
#[derive(Debug, Clone, PartialEq, Eq)]
pub struct CheckoutSession {
    pub id: CheckoutSessionId,
    pub amount: Option<u64>,
    pub customer_reference_id: Option<String>,
    pub billing_details_collection: Option<String>,
    pub client_secret: Option<String>,
    pub status: CheckoutSessionStatus,
    pub currency: Currency,
    pub line_items: Vec<CheckoutSessionLineItem>,
    pub livemode: bool,
    pub url: String,
    pub payment_intent: Option<PaymentIntent>,
    pub metadata: Option<Metadata>,
    pub success_url: Option<String>,
    pub cancel_url: Option<String>,
    pub payment_methods: Option<Vec<PaymentMethod>>,
    pub payment_method_options: Option<PaymentMethodOptions>,
    pub description: Option<String>,
    pub submit_type: Option<String>,
    pub statement_descriptor: Option<String>,
    pub expires_at: Option<Timestamp>,
    pub created_at: Timestamp,
    pub updated_at: Timestamp,
}

/// Parameters for creating a checkout session.
#[derive(Debug, Clone, PartialEq, Eq)]
pub struct CreateCheckoutSession {
    pub customer_reference_id: Option<String>,
    pub currency: Currency,
    pub line_items: Vec<CheckoutSessionLineItem>,
    pub success_url: String,
    pub cancel_url: String,
    pub payment_methods: Vec<PaymentMethod>,
    pub payment_method_options: Option<PaymentMethodOptions>,
    pub expires_at: Option<Timestamp>,
    pub billing_details_collection: Option<String>,
    pub submit_type: Option<String>,
    pub description: Option<String>,
    pub metadata: Option<Metadata>,
}

impl CreateCheckoutSession {
    /// Parameters for a session over the given lines, redirect URLs and
    /// payment methods.
    pub fn new(
        currency: Currency,
        line_items: Vec<CheckoutSessionLineItem>,
        success_url: &str,
        cancel_url: &str,
        payment_methods: Vec<PaymentMethod>,
    ) -> (r: Self)
        ensures
            r.customer_reference_id is None,
            r.currency == currency,
            r.line_items == line_items,
            r.success_url@ == success_url@,
            r.cancel_url@ == cancel_url@,
            r.payment_methods == payment_methods,
            r.payment_method_options is None,
            r.expires_at is None,
            r.billing_details_collection is None,
            r.submit_type is None,
            r.description is None,
            r.metadata is None,
    {
        CreateCheckoutSession {
            customer_reference_id: None,
            currency,
            line_items,
            success_url: success_url.to_owned(),
            cancel_url: cancel_url.to_owned(),
            payment_methods,
            payment_method_options: None,
            expires_at: None,
            billing_details_collection: None,
            submit_type: None,
            description: None,
            metadata: None,
        }
    }

    /// Sets the customer reference.
    pub fn customer_reference_id(self, id: &str) -> (r: Self)
        ensures
            r.customer_reference_id matches Some(c) && c@ == id@,
            r == (CreateCheckoutSession {
                customer_reference_id: r.customer_reference_id,
                ..self
            }),
    {
        CreateCheckoutSession { customer_reference_id: Some(id.to_owned()), ..self }
    }

    /// Sets when the session expires.
    pub fn expires_at(self, timestamp: Timestamp) -> (r: Self)
        ensures
            r == (CreateCheckoutSession { expires_at: Some(timestamp), ..self }),
    {
        CreateCheckoutSession { expires_at: Some(timestamp), ..self }
    }

    /// Sets the payment method options.
    pub fn payment_method_options(self, options: PaymentMethodOptions) -> (r: Self)
        ensures
            r == (CreateCheckoutSession { payment_method_options: Some(options), ..self }),
    {
        CreateCheckoutSession { payment_method_options: Some(options), ..self }
    }

    /// Sets how billing details are collected.
    pub fn billing_details_collection(self, collection: &str) -> (r: Self)
        ensures
            r.billing_details_collection matches Some(c) && c@ == collection@,
            r == (CreateCheckoutSession {
                billing_details_collection: r.billing_details_collection,
                ..self
            }),
    {
        CreateCheckoutSession {
            billing_details_collection: Some(collection.to_owned()),
            ..self
        }
    }

    /// Sets the submit button's kind.
    pub fn submit_type(self, submit_type: &str) -> (r: Self)
        ensures
            r.submit_type matches Some(s) && s@ == submit_type@,
            r == (CreateCheckoutSession { submit_type: r.submit_type, ..self }),
    {
        CreateCheckoutSession { submit_type: Some(submit_type.to_owned()), ..self }
    }

    /// Sets the description.
    pub fn description(self, description: &str) -> (r: Self)
        ensures
            r.description matches Some(d) && d@ == description@,
            r == (CreateCheckoutSession { description: r.description, ..self }),
    {
        CreateCheckoutSession { description: Some(description.to_owned()), ..self }
    }

    /// Sets the metadata.
    pub fn metadata(self, metadata: Metadata) -> (r: Self)
        ensures
            r == (CreateCheckoutSession { metadata: Some(metadata), ..self }),
    {
        CreateCheckoutSession { metadata: Some(metadata), ..self }
    }
}

} // verus!
