//! Refunds: returning money to a customer.

use vstd::prelude::*;

use crate::types::Currency;
use crate::types::Metadata;
use crate::types::PaymentId;
use crate::types::RefundId;
use crate::types::Timestamp;

verus! {

/// The lifecycle state of a refund.
#[derive(Debug, Clone, Copy, PartialEq, Eq, Structural)]
pub enum RefundStatus {
    Pending,
    Succeeded,
    Failed,
}

/// Why the refund was made.
#[derive(Debug, Clone, Copy, PartialEq, Eq, Structural)]
pub enum RefundReason {
    Fraudulent,
    RequestedByCustomer,
    ProductOutOfStock,
    ProductWasDamaged,
    ServiceNotProvided,
    ServiceMisaligned,
    WrongProductReceived,
    Others,
}

/// A refund resource.
#[derive(Debug, Clone, PartialEq, Eq)]
pub struct Refund {
    pub id: RefundId,
    pub amount: i64,
    pub currency: Currency,
    pub livemode: bool,
    pub status: RefundStatus,
    pub description: Option<String>,
    pub reason: RefundReason,
    pub remarks: Option<String>,
    pub payment_id: PaymentId,
    pub metadata: Option<Metadata>,
    pub created_at: Timestamp,
    pub updated_at: Timestamp,
}

/// Parameters for creating a refund.
#[derive(Debug, Clone, PartialEq, Eq)]
pub struct CreateRefund {
    pub payment_id: PaymentId,
    pub amount: i64,
    pub currency: Currency,
    pub reason: RefundReason,
    pub metadata: Option<Metadata>,
    pub remarks: Option<String>,
    pub description: Option<String>,
}

impl CreateRefund {
    /// Parameters refunding the given amount of the given payment.
    pub fn new(payment_id: PaymentId, amount: i64, currency: Currency, reason: RefundReason) -> (r:
        Self)
        ensures
            r.payment_id == payment_id,
            r.amount == amount,
            r.currency == currency,
            r.reason == reason,
            r.metadata is None,
            r.remarks is None,
            r.description is None,
    {
        CreateRefund {
            payment_id,
            amount,
            currency,
            reason,
            metadata: None,
            remarks: None,
            description: None,
        }
    }

    /// Sets the metadata.
    pub fn metadata(self, metadata: Metadata) -> (r: Self)
        ensures
            r == (CreateRefund { metadata: Some(metadata), ..self }),
    {
        CreateRefund { metadata: Some(metadata), ..self }
    }

    /// Sets the remarks.
    pub fn remarks(self, remarks: &str) -> (r: Self)
        ensures
            r.remarks matches Some(m) && m@ == remarks@,
            r == (CreateRefund { remarks: r.remarks, ..self }),
    {
        CreateRefund { remarks: Some(remarks.to_owned()), ..self }
    }

    /// Sets the description.
    pub fn description(self, description: &str) -> (r: Self)
        ensures
            r.description matches Some(d) && d@ == description@,
            r == (CreateRefund { description: r.description, ..self }),
    {
        CreateRefund { description: Some(description.to_owned()), ..self }
    }
}

/// Parameters for updating a refund; unset fields stay as they are.
#[derive(Debug, Clone, PartialEq, Eq)]
pub struct UpdateRefund {
    pub metadata: Option<Metadata>,
}

impl Default for UpdateRefund {
    /// Parameters changing nothing.
    fn default() -> (r: Self)
        ensures
            r.metadata is None,
    {
        UpdateRefund { metadata: None }
    }
}

} // verus!
