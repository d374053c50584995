//! The API resources: their objects and request parameters.

pub mod billing_statement_line_items;
pub mod billing_statements;
pub mod checkout_sessions;
pub mod customers;
pub mod payment_intents;
pub mod payments;
pub mod payouts;
pub mod refunds;
pub mod webhooks;
