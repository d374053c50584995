//! Customers: your business's customers, for tracking payments and billing
//! information.

use vstd::prelude::*;

use crate::types::Currency;
use crate::types::CustomerId;
use crate::types::ListParams;
use crate::types::Metadata;
use crate::types::Timestamp;

verus! {

/// A customer resource.
#[derive(Debug, Clone, PartialEq, Eq)]
pub struct Customer {
    pub id: CustomerId,
    pub billing_statement_prefix: Option<String>,
    pub currency: Option<Currency>,
    pub email: Option<String>,
    pub livemode: bool,
    pub name: Option<String>,
    pub metadata: Option<Metadata>,
    pub next_billing_statement_sequence_number: Option<String>,
    pub created_at: Timestamp,
    pub updated_at: Timestamp,
}

/// A customer as embedded in another resource, where most fields may be left
/// out.
#[derive(Debug, Clone, PartialEq, Eq)]
pub struct OptionalCustomer {
    pub id: CustomerId,
    pub billing_statement_prefix: Option<String>,
    pub currency: Option<Currency>,
    pub email: Option<String>,
    pub livemode: Option<bool>,
    pub name: Option<String>,
    pub metadata: Option<Metadata>,
    pub next_billing_statement_sequence_number: Option<String>,
    pub created_at: Option<Timestamp>,
    pub updated_at: Option<Timestamp>,
}

/// Parameters for creating a customer.
#[derive(Debug, Clone, PartialEq, Eq)]
pub struct CreateCustomer {
    pub currency: Currency,
    pub email: String,
    pub name: String,
    pub billing_statement_prefix: Option<String>,
    pub next_billing_statement_sequence_number: Option<String>,
    pub metadata: Option<Metadata>,
}

impl CreateCustomer {
    /// Parameters for a customer with the given currency, e-mail and name.
    pub fn new(currency: Currency, email: String, name: String) -> (r: Self)
        ensures
            r.currency == currency,
            r.email == email,
            r.name == name,
            r.billing_statement_prefix is None,
            r.next_billing_statement_sequence_number is None,
            r.metadata is None,
    {
        CreateCustomer {
            currency,
            email,
            name,
            billing_statement_prefix: None,
            next_billing_statement_sequence_number: None,
            metadata: None,
        }
    }

    /// Sets the billing statement prefix.
    pub fn billing_statement_prefix(self, billing_statement_prefix: &str) -> (r: Self)
        ensures
            r.billing_statement_prefix matches Some(p) && p@ == billing_statement_prefix@,
            r == (CreateCustomer {
                billing_statement_prefix: r.billing_statement_prefix,
                ..self
            }),
    {
        CreateCustomer {
            billing_statement_prefix: Some(billing_statement_prefix.to_owned()),
            ..self
        }
    }

    /// Sets the sequence number of the next billing statement.
    pub fn next_billing_statement_sequence_number(self, sequence_number: &str) -> (r: Self)
        ensures
            r.next_billing_statement_sequence_number matches Some(n) && n@ == sequence_number@,
            r == (CreateCustomer {
                next_billing_statement_sequence_number: r.next_billing_statement_sequence_number,
                ..self
            }),
    {
        CreateCustomer {
            next_billing_statement_sequence_number: Some(sequence_number.to_owned()),
            ..self
        }
    }

    /// Sets the metadata.
    pub fn metadata(self, metadata: Metadata) -> (r: Self)
        ensures
            r == (CreateCustomer { metadata: Some(metadata), ..self }),
    {
        CreateCustomer { metadata: Some(metadata), ..self }
    }
}

/// Parameters for updating a customer; unset fields stay as they are.
#[derive(Debug, Clone, PartialEq, Eq)]
pub struct UpdateCustomer {
    pub billing_statement_prefix: Option<String>,
    pub next_billing_statement_sequence_number: Option<String>,
    pub currency: Option<Currency>,
    pub email: Option<String>,
    pub name: Option<String>,
    pub metadata: Option<Metadata>,
}

impl UpdateCustomer {
    /// Parameters changing nothing.
    pub fn new() -> (r: Self)
        ensures
            r.billing_statement_prefix is None,
            r.next_billing_statement_sequence_number is None,
            r.currency is None,
            r.email is None,
            r.name is None,
            r.metadata is None,
    {
        UpdateCustomer {
            billing_statement_prefix: None,
            next_billing_statement_sequence_number: None,
            currency: None,
            email: None,
            name: None,
            metadata: None,
        }
    }

    /// Sets the currency.
    pub fn currency(self, currency: Currency) -> (r: Self)
        ensures
            r == (UpdateCustomer { currency: Some(currency), ..self }),
    {
        UpdateCustomer { currency: Some(currency), ..self }
    }

    /// Sets the name.
    pub fn name(self, name: &str) -> (r: Self)
        ensures
            r.name matches Some(n) && n@ == name@,
            r == (UpdateCustomer { name: r.name, ..self }),
    {
        UpdateCustomer { name: Some(name.to_owned()), ..self }
    }

    /// Sets the e-mail address.
    pub fn email(self, email: &str) -> (r: Self)
        ensures
            r.email matches Some(e) && e@ == email@,
            r == (UpdateCustomer { email: r.email, ..self }),
    {
        UpdateCustomer { email: Some(email.to_owned()), ..self }
    }

    /// Sets the billing statement prefix.
    pub fn billing_statement_prefix(self, billing_statement_prefix: &str) -> (r: Self)
        ensures
            r.billing_statement_prefix matches Some(p) && p@ == billing_statement_prefix@,
            r == (UpdateCustomer {
                billing_statement_prefix: r.billing_statement_prefix,
                ..self
            }),
    {
        UpdateCustomer {
            billing_statement_prefix: Some(billing_statement_prefix.to_owned()),
            ..self
        }
    }

    /// Sets the sequence number of the next billing statement.
    pub fn next_billing_statement_sequence_number(self, sequence_number: &str) -> (r: Self)
        ensures
            r.next_billing_statement_sequence_number matches Some(n) && n@ == sequence_number@,
            r == (UpdateCustomer {
                next_billing_statement_sequence_number: r.next_billing_statement_sequence_number,
                ..self
            }),
    {
        UpdateCustomer {
            next_billing_statement_sequence_number: Some(sequence_number.to_owned()),
            ..self
        }
    }

    /// Sets the metadata.
    pub fn metadata(self, metadata: Metadata) -> (r: Self)
        ensures
            r == (UpdateCustomer { metadata: Some(metadata), ..self }),
    {
        UpdateCustomer { metadata: Some(metadata), ..self }
    }
}

impl Default for UpdateCustomer {
    /// Parameters changing nothing.
    fn default() -> (r: Self)
        ensures
            r.billing_statement_prefix is None,
            r.next_billing_statement_sequence_number is None,
            r.currency is None,
            r.email is None,
            r.name is None,
            r.metadata is None,
    {
        UpdateCustomer::new()
    }
}

/// Filters for listing customers.
#[derive(Debug, Clone, PartialEq, Eq)]
pub struct CustomerListParams {
    pub list_params: ListParams,
    pub email: Option<String>,
    pub name: Option<String>,
    pub metadata: Option<Metadata>,
}

impl CustomerListParams {
    /// Filters matching every customer.
    pub fn new() -> (r: Self)
        ensures
            r.list_params.limit is None,
            r.list_params.starting_after is None,
            r.list_params.ending_before is None,
            r.email is None,
            r.name is None,
            r.metadata is None,
    {
        CustomerListParams {
            list_params: ListParams::new(),
            email: None,
            name: None,
            metadata: None,
        }
    }

    /// Filters on the name.
    pub fn name(self, name: &str) -> (r: Self)
        ensures
            r.name matches Some(n) && n@ == name@,
            r == (CustomerListParams { name: r.name, ..self }),
    {
        CustomerListParams { name: Some(name.to_owned()), ..self }
    }

    /// Filters on the e-mail address.
    pub fn email(self, email: &str) -> (r: Self)
        ensures
            r.email matches Some(e) && e@ == email@,
            r == (CustomerListParams { email: r.email, ..self }),
    {
        CustomerListParams { email: Some(email.to_owned()), ..self }
    }

    /// Filters on the metadata.
    pub fn metadata(self, metadata: Metadata) -> (r: Self)
        ensures
            r == (CustomerListParams { metadata: Some(metadata), ..self }),
    {
        CustomerListParams { metadata: Some(metadata), ..self }
    }
}

impl Default for CustomerListParams {
    /// Filters matching every customer.
    fn default() -> (r: Self)
        ensures
            r.list_params.limit is None,
            r.list_params.starting_after is None,
            r.list_params.ending_before is None,
            r.email is None,
            r.name is None,
            r.metadata is None,
    {
        CustomerListParams::new()
    }
}

} // verus!
