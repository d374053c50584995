//! Payouts: transfers of funds to your bank account.

use vstd::prelude::*;

use crate::types::PayoutId;
use crate::types::PayoutTransactionId;
use crate::types::Timestamp;

verus! {

/// The lifecycle state of a payout.
#[derive(Debug, Clone, Copy, PartialEq, Eq, Structural)]
pub enum PayoutStatus {
    Pending,
    InTransit,
    Failed,
    Cancelled,
}

/// The bank account a payout goes to.
#[derive(Debug, Clone, PartialEq, Eq)]
pub struct PayoutDestination {
    pub account_name: String,
    pub account_number: String,
    pub bank_name: String,
}

/// What kind of transaction a payout entry settles.
#[derive(Debug, Clone, Copy, PartialEq, Eq, Structural)]
pub enum PayoutTransactionType {
    Payment,
    Refund,
    Adjustment,
}

/// A payout resource.
#[derive(Debug, Clone, PartialEq, Eq)]
pub struct Payout {
    pub id: PayoutId,
    pub amount: i64,
    pub destination: Option<PayoutDestination>,
    pub livemode: bool,
    pub net_amount: Option<i64>,
    pub status: PayoutStatus,
    pub created_at: Timestamp,
    pub updated_at: Option<Timestamp>,
}

/// One transaction settled by a payout.
#[derive(Debug, Clone, PartialEq, Eq)]
pub struct PayoutTransaction {
    pub id: PayoutTransactionId,
    pub amount: i32,
    pub net_amount: i32,
    pub transaction_id: PayoutTransactionId,
    pub transaction_type: PayoutTransactionType,
    pub created_at: Timestamp,
    pub updated_at: Option<Timestamp>,
}

} // verus!
