//! Shared value types used across the API resources.

pub mod common;
pub mod currency;
pub mod event;
pub mod ids;
pub mod metadata;
pub mod pagination;
pub mod payment_methods;
pub mod timestamp;

pub use common::Deleted;
pub use common::Expandable;
pub use common::ObjectType;
pub use common::RangeQuery;
pub use common::Resource;
pub use currency::Currency;
pub use event::BillingStatementEvent;
pub use event::BillingStatementLineItemEvent;
pub use event::CheckoutSessionEvent;
pub use event::EventType;
pub use event::PaymentIntentEvent;
pub use event::PayoutEvent;
pub use event::RefundEvent;
pub use event::parse_event_type;
pub use ids::BillingStatementId;
pub use ids::BillingStatementLineItemId;
pub use ids::CheckoutSessionId;
pub use ids::CheckoutSessionLineItemId;
pub use ids::CustomerId;
pub use ids::EventId;
pub use ids::PaymentId;
pub use ids::PaymentIntentId;
pub use ids::PayoutId;
pub use ids::PayoutTransactionId;
pub use ids::RefundId;
pub use ids::WebhookId;
pub use metadata::Metadata;
pub use metadata::StringArg;
pub use pagination::List;
pub use pagination::ListParams;
pub use payment_methods::CaptureMethod;
pub use payment_methods::CardOptions;
pub use payment_methods::PaymentMethod;
pub use payment_methods::PaymentMethodOptions;
pub use timestamp::Timestamp;
