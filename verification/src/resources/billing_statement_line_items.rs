//! Billing statement line items: the itemized entries of a billing
//! statement.

use vstd::prelude::*;

use crate::types::BillingStatementId;
use crate::types::BillingStatementLineItemId;
use crate::types::Timestamp;

verus! {

/// One line of a billing statement.
#[derive(Debug, Clone, PartialEq, Eq)]
pub struct BillingStatementLineItem {
    pub id: BillingStatementLineItemId,
    pub description: Option<String>,
    pub unit_price: u64,
    pub quantity: u64,
    pub billing_statement_id: BillingStatementId,
    pub livemode: bool,
    pub created_at: Timestamp,
    pub updated_at: Timestamp,
}

/// Parameters for creating a billing statement line item.
#[derive(Debug, Clone, PartialEq, Eq)]
pub struct CreateBillingStatementLineItem {
    pub billing_statement_id: BillingStatementId,
    pub description: String,
    pub unit_price: u64,
    pub quantity: u64,
}

impl CreateBillingStatementLineItem {
    /// Parameters for a line of the given statement.
    pub fn new(
        billing_statement_id: BillingStatementId,
        description: &str,
        unit_price: u64,
        quantity: u64,
    ) -> (r: Self)
        ensures
            r.billing_statement_id == billing_statement_id,
            r.description@ == description@,
            r.unit_price == unit_price,
            r.quantity == quantity,
    {
        CreateBillingStatementLineItem {
            billing_statement_id,
            description: description.to_owned(),
            unit_price,
            quantity,
        }
    }
}

/// Parameters for updating a billing statement line item; unset fields stay
/// as they are.
#[derive(Debug, Clone, PartialEq, Eq)]
pub struct UpdateBillingStatementLineItem {
    pub description: Option<String>,
    pub unit_price: Option<u64>,
    pub quantity: Option<u64>,
}

impl UpdateBillingStatementLineItem {
    /// Parameters changing nothing.
    pub fn new() -> (r: Self)
        ensures
            r.description is None,
            r.unit_price is None,
            r.quantity is None,
    {
        UpdateBillingStatementLineItem { description: None, unit_price: None, quantity: None }
    }

    /// Sets the description.
    pub fn description(self, description: &str) -> (r: Self)
        ensures
            r.description matches Some(d) && d@ == description@,
            r == (UpdateBillingStatementLineItem { description: r.description, ..self }),
    {
        UpdateBillingStatementLineItem { description: Some(description.to_owned()), ..self }
    }

    /// Sets the unit price.
    pub fn unit_price(self, price: u64) -> (r: Self)
        ensures
            r == (UpdateBillingStatementLineItem { unit_price: Some(price), ..self }),
    {
        UpdateBillingStatementLineItem { unit_price: Some(price), ..self }
    }

    /// Sets the quantity.
    pub fn quantity(self, quantity: u64) -> (r: Self)
        ensures
            r == (UpdateBillingStatementLineItem { quantity: Some(quantity), ..self }),
    {
        UpdateBillingStatementLineItem { quantity: Some(quantity), ..self }
    }
}

impl Default for UpdateBillingStatementLineItem {
    /// Parameters changing nothing.
    fn default() -> (r: Self)
        ensures
            r.description is None,
            r.unit_price is None,
            r.quantity is None,
    {
        UpdateBillingStatementLineItem::new()
    }
}

} // verus!
