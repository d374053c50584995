//! Billing statements: one-time payment links with an itemized list of
//! products or services.

use vstd::prelude::*;

use crate::resources::billing_statement_line_items::BillingStatementLineItem;
use crate::resources::customers::OptionalCustomer;
use crate::resources::payment_intents::OptionalPaymentIntent;
use crate::types::BillingStatementId;
use crate::types::Currency;
use crate::types::CustomerId;
use crate::types::Metadata;
use crate::types::PaymentMethod;
use crate::types::Timestamp;

verus! {

/// The payment methods a billing statement accepts.
#[derive(Debug, Clone, PartialEq, Eq)]
pub struct PaymentSettings {
    pub payment_methods: Vec<PaymentMethod>,
}

/// The lifecycle state of a billing statement.
#[derive(Debug, Clone, Copy, PartialEq, Eq, Structural)]
pub enum BillingStatementStatus {
    Draft,
    Open,
    Paid,
    Void,
    Uncollectible,
}

/// A billing statement resource.
#[derive(Debug, Clone, PartialEq, Eq)]
pub struct BillingStatement {
    pub id: BillingStatementId,
    pub amount: i64,
    pub billing_details_collection: Option<String>,
    pub currency: Currency,
    pub customer_id: CustomerId,
    pub description: Option<String>,
    pub due_at: Option<Timestamp>,
    pub finalized_at: Option<Timestamp>,
    pub billing_statement_merchant_name: Option<String>,
    pub billing_statement_number: Option<String>,
    pub billing_statement_url: Option<String>,
    pub line_items: Option<Vec<BillingStatementLineItem>>,
    pub livemode: bool,
    pub metadata: Option<Metadata>,
    pub payment_intent: Option<OptionalPaymentIntent>,
    pub setup_future_usage: Option<String>,
    pub statement_descriptor: Option<String>,
    pub status: BillingStatementStatus,
    pub payment_settings: PaymentSettings,
    pub customer: Option<OptionalCustomer>,
    pub created_at: Timestamp,
    pub updated_at: Timestamp,
}

/// Parameters for creating a billing statement.
#[derive(Debug, Clone, PartialEq, Eq)]
pub struct CreateBillingStatement {
    pub customer_id: CustomerId,
    pub currency: Currency,
    pub payment_settings: Option<PaymentSettings>,
    pub billing_details_collection: Option<String>,
    pub description: Option<String>,
    pub metadata: Option<Metadata>,
}

impl CreateBillingStatement {
    /// Parameters for a statement of the given customer.
    pub fn new(customer_id: CustomerId, currency: Currency) -> (r: Self)
        ensures
            r.customer_id == customer_id,
            r.currency == currency,
            r.payment_settings is None,
            r.billing_details_collection is None,
            r.description is None,
            r.metadata is None,
    {
        CreateBillingStatement {
            customer_id,
            currency,
            payment_settings: None,
            billing_details_collection: None,
            description: None,
            metadata: None,
        }
    }

    /// Sets the accepted payment methods.
    pub fn payment_settings(self, settings: PaymentSettings) -> (r: Self)
        ensures
            r == (CreateBillingStatement { payment_settings: Some(settings), ..self }),
    {
        CreateBillingStatement { payment_settings: Some(settings), ..self }
    }

    /// Sets how billing details are collected.
    pub fn billing_details_collection(self, collection: &str) -> (r: Self)
        ensures
            r.billing_details_collection matches Some(c) && c@ == collection@,
            r == (CreateBillingStatement {
                billing_details_collection: r.billing_details_collection,
                ..self
            }),
    {
        CreateBillingStatement {
            billing_details_collection: Some(collection.to_owned()),
            ..self
        }
    }

    /// Sets the description.
    pub fn description(self, description: &str) -> (r: Self)
        ensures
            r.description matches Some(d) && d@ == description@,
            r == (CreateBillingStatement { description: r.description, ..self }),
    {
        CreateBillingStatement { description: Some(description.to_owned()), ..self }
    }

    /// Sets the metadata.
    pub fn metadata(self, metadata: Metadata) -> (r: Self)
        ensures
            r == (CreateBillingStatement { metadata: Some(metadata), ..self }),
    {
        CreateBillingStatement { metadata: Some(metadata), ..self }
    }
}

/// Parameters for updating a billing statement; unset fields stay as they
/// are.
#[derive(Debug, Clone, PartialEq, Eq)]
pub struct UpdateBillingStatement {
    pub customer_id: Option<CustomerId>,
    pub payment_settings: Option<PaymentSettings>,
    pub billing_details_collection: Option<String>,
    pub description: Option<String>,
    pub metadata: Option<Metadata>,
    pub due_at: Option<Timestamp>,
}

impl UpdateBillingStatement {
    /// Parameters changing nothing.
    pub fn new() -> (r: Self)
        ensures
            r.customer_id is None,
            r.payment_settings is None,
            r.billing_details_collection is None,
            r.description is None,
            r.metadata is None,
            r.due_at is None,
    {
        UpdateBillingStatement {
            customer_id: None,
            payment_settings: None,
            billing_details_collection: None,
            description: None,
            metadata: None,
            due_at: None,
        }
    }

    /// Sets the customer.
    pub fn customer_id(self, id: CustomerId) -> (r: Self)
        ensures
            r == (UpdateBillingStatement { customer_id: Some(id), ..self }),
    {
        UpdateBillingStatement { customer_id: Some(id), ..self }
    }

    /// Sets how billing details are collected.
    pub fn billing_details_collection(self, collection: &str) -> (r: Self)
        ensures
            r.billing_details_collection matches Some(c) && c@ == collection@,
            r == (UpdateBillingStatement {
                billing_details_collection: r.billing_details_collection,
                ..self
            }),
    {
        UpdateBillingStatement {
            billing_details_collection: Some(collection.to_owned()),
            ..self
        }
    }

    /// Sets the accepted payment methods.
    pub fn payment_settings(self, settings: PaymentSettings) -> (r: Self)
        ensures
            r == (UpdateBillingStatement { payment_settings: Some(settings), ..self }),
    {
        UpdateBillingStatement { payment_settings: Some(settings), ..self }
    }

    /// Sets the description.
    pub fn description(self, description: &str) -> (r: Self)
        ensures
            r.description matches Some(d) && d@ == description@,
            r == (UpdateBillingStatement { description: r.description, ..self }),
    {
        UpdateBillingStatement { description: Some(description.to_owned()), ..self }
    }

    /// Sets the metadata.
    pub fn metadata(self, metadata: Metadata) -> (r: Self)
        ensures
            r == (UpdateBillingStatement { metadata: Some(metadata), ..self }),
    {
        UpdateBillingStatement { metadata: Some(metadata), ..self }
    }
}

impl Default for UpdateBillingStatement {
    /// Parameters changing nothing.
    fn default() -> (r: Self)
        ensures
            r.customer_id is None,
            r.payment_settings is None,
            r.billing_details_collection is None,
            r.description is None,
            r.metadata is None,
            r.due_at is None,
    {
        UpdateBillingStatement::new()
    }
}

} // verus!
