//! Payments: successfully completed payment transactions.

use vstd::prelude::*;

use crate::resources::customers::Customer;
use crate::types::Currency;
use crate::types::Metadata;
use crate::types::PaymentId;
use crate::types::PaymentIntentId;
use crate::types::PaymentMethod;
use crate::types::Timestamp;

verus! {

/// The billing address of a customer.
#[derive(Debug, Clone, PartialEq, Eq)]
pub struct Address {
    pub line1: Option<String>,
    pub line2: Option<String>,
    pub city: Option<String>,
    pub state: Option<String>,
    pub postal_code: Option<String>,
    pub country: Option<String>,
}

/// The billing information of a customer.
#[derive(Debug, Clone, PartialEq, Eq)]
pub struct Billing {
    pub name: String,
    pub email: String,
    pub phone: Option<String>,
    pub address: Address,
}

/// Card details recorded for a card payment.
#[derive(Debug, Clone, PartialEq, Eq)]
pub struct PaymentMethodTypesCard {
    /// The first six digits of the card.
    pub first6: String,
    /// The last four digits of the card.
    pub last4: String,
    /// The brand of the card.
    pub brand: String,
}

/// The payment method of a payment, with card details when it was a card.
#[derive(Debug, Clone, PartialEq, Eq)]
pub struct PaymentMethodTypes {
    pub method_type: PaymentMethod,
    pub card: Option<PaymentMethodTypesCard>,
}

/// Whether a payment went through.
#[derive(Debug, Clone, Copy, PartialEq, Eq, Structural)]
pub enum PaymentStatus {
    Paid,
    Failed,
}

/// A payment resource.
#[derive(Debug, Clone, PartialEq, Eq)]
pub struct Payment {
    pub id: PaymentId,
    pub amount: u64,
    pub amount_refunded: u64,
    pub billing: Option<Billing>,
    pub currency: Currency,
    pub description: Option<String>,
    pub fee: i64,
    pub livemode: bool,
    pub metadata: Option<Metadata>,
    pub net_amount: i64,
    pub payment_intent_id: PaymentIntentId,
    pub status: PaymentStatus,
    pub customer: Option<Customer>,
    pub payment_method: PaymentMethodTypes,
    pub refunded: bool,
    pub created_at: Timestamp,
    pub updated_at: Timestamp,
}

/// Parameters for updating a payment; unset fields stay as they are.
#[derive(Debug, Clone, PartialEq, Eq)]
pub struct UpdatePayment {
    pub description: Option<String>,
    pub metadata: Option<Metadata>,
}

impl UpdatePayment {
    /// Parameters changing nothing.
    pub fn new() -> (r: Self)
        ensures
            r.description is None,
            r.metadata is None,
    {
        UpdatePayment { description: None, metadata: None }
    }

    /// Sets the description.
    pub fn description(self, description: &str) -> (r: Self)
        ensures
            r.description matches Some(d) && d@ == description@,
            r == (UpdatePayment { description: r.description, ..self }),
    {
        UpdatePayment { description: Some(description.to_owned()), ..self }
    }

    /// Sets the metadata.
    pub fn metadata(self, metadata: Metadata) -> (r: Self)
        ensures
            r == (UpdatePayment { metadata: Some(metadata), ..self }),
    {
        UpdatePayment { metadata: Some(metadata), ..self }
    }
}

impl Default for UpdatePayment {
    /// Parameters changing nothing.
    fn default() -> (r: Self)
        ensures
            r.description is None,
            r.metadata is None,
    {
        UpdatePayment::new()
    }
}

} // verus!
