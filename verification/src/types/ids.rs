//! Strongly-typed identifiers, one type per resource.
//!
//! Each identifier wraps the server-issued string, whose prefix names the
//! resource kind; the distinct types keep identifiers of different resources
//! from being mixed up. The view of an identifier is its characters.

use vstd::prelude::*;

use crate::strutil::spec_starts_with;
use crate::strutil::str_starts_with;

verus! {

/// Payment intent identifier; the prefix is `pi_`.
#[derive(Debug, Clone, PartialEq, Eq, Hash)]
pub struct PaymentIntentId(String);

impl View for PaymentIntentId {
    type V = Seq<char>;

    closed spec fn view(&self) -> Seq<char> {
        self.0@
    }
}

impl PaymentIntentId {
    /// Wraps an identifier carrying the expected prefix.
    pub fn new(id: &str) -> (r: Self)
        requires
            spec_starts_with(id@, "pi_"@),
        ensures
            r@ == id@,
    {
        PaymentIntentId(id.to_owned())
    }

    /// Wraps an identifier without checking its prefix.
    pub fn new_unchecked(id: &str) -> (r: Self)
        ensures
            r@ == id@,
    {
        PaymentIntentId(id.to_owned())
    }

    /// The identifier string.
    pub fn as_str(&self) -> (r: &str)
        ensures
            r@ == self@,
    {
        self.0.as_str()
    }

    /// Whether the string carries this type's prefix.
    pub fn is_valid(id: &str) -> (r: bool)
        ensures
            r == spec_starts_with(id@, "pi_"@),
    {
        str_starts_with(id, "pi_")
    }

    /// The prefix of this identifier type.
    pub fn prefix() -> (r: &'static str)
        ensures
            r@ == "pi_"@,
    {
        "pi_"
    }
}

impl From<PaymentIntentId> for String {
    /// The identifier string, unwrapped.
    fn from(id: PaymentIntentId) -> (r: String)
        ensures
            r@ == id@,
    {
        id.0
    }
}

impl vstd::std_specs::convert::FromSpecImpl<PaymentIntentId> for String {
    open spec fn obeys_from_spec() -> bool {
        false
    }

    open spec fn from_spec(id: PaymentIntentId) -> String {
        arbitrary()
    }
}

/// Customer identifier; the prefix is `cus_`.
#[derive(Debug, Clone, PartialEq, Eq, Hash)]
pub struct CustomerId(String);

impl View for CustomerId {
    type V = Seq<char>;

    closed spec fn view(&self) -> Seq<char> {
        self.0@
    }
}

impl CustomerId {
    /// Wraps an identifier carrying the expected prefix.
    pub fn new(id: &str) -> (r: Self)
        requires
            spec_starts_with(id@, "cus_"@),
        ensures
            r@ == id@,
    {
        CustomerId(id.to_owned())
    }

    /// Wraps an identifier without checking its prefix.
    pub fn new_unchecked(id: &str) -> (r: Self)
        ensures
            r@ == id@,
    {
        CustomerId(id.to_owned())
    }

    /// The identifier string.
    pub fn as_str(&self) -> (r: &str)
        ensures
            r@ == self@,
    {
        self.0.as_str()
    }

    /// Whether the string carries this type's prefix.
    pub fn is_valid(id: &str) -> (r: bool)
        ensures
            r == spec_starts_with(id@, "cus_"@),
    {
        str_starts_with(id, "cus_")
    }

    /// The prefix of this identifier type.
    pub fn prefix() -> (r: &'static str)
        ensures
            r@ == "cus_"@,
    {
        "cus_"
    }
}

impl From<CustomerId> for String {
    /// The identifier string, unwrapped.
    fn from(id: CustomerId) -> (r: String)
        ensures
            r@ == id@,
    {
        id.0
    }
}

impl vstd::std_specs::convert::FromSpecImpl<CustomerId> for String {
    open spec fn obeys_from_spec() -> bool {
        false
    }

    open spec fn from_spec(id: CustomerId) -> String {
        arbitrary()
    }
}

/// Billing statement identifier; the prefix is `bstm_`.
#[derive(Debug, Clone, PartialEq, Eq, Hash)]
pub struct BillingStatementId(String);

impl View for BillingStatementId {
    type V = Seq<char>;

    closed spec fn view(&self) -> Seq<char> {
        self.0@
    }
}

impl BillingStatementId {
    /// Wraps an identifier carrying the expected prefix.
    pub fn new(id: &str) -> (r: Self)
        requires
            spec_starts_with(id@, "bstm_"@),
        ensures
            r@ == id@,
    {
        BillingStatementId(id.to_owned())
    }

    /// Wraps an identifier without checking its prefix.
    pub fn new_unchecked(id: &str) -> (r: Self)
        ensures
            r@ == id@,
    {
        BillingStatementId(id.to_owned())
    }

    /// The identifier string.
    pub fn as_str(&self) -> (r: &str)
        ensures
            r@ == self@,
    {
        self.0.as_str()
    }

    /// Whether the string carries this type's prefix.
    pub fn is_valid(id: &str) -> (r: bool)
        ensures
            r == spec_starts_with(id@, "bstm_"@),
    {
        str_starts_with(id, "bstm_")
    }

    /// The prefix of this identifier type.
    pub fn prefix() -> (r: &'static str)
        ensures
            r@ == "bstm_"@,
    {
        "bstm_"
    }
}

impl From<BillingStatementId> for String {
    /// The identifier string, unwrapped.
    fn from(id: BillingStatementId) -> (r: String)
        ensures
            r@ == id@,
    {
        id.0
    }
}

impl vstd::std_specs::convert::FromSpecImpl<BillingStatementId> for String {
    open spec fn obeys_from_spec() -> bool {
        false
    }

    open spec fn from_spec(id: BillingStatementId) -> String {
        arbitrary()
    }
}

/// Billing statement line item identifier; the prefix is `bstm_li_`.
#[derive(Debug, Clone, PartialEq, Eq, Hash)]
pub struct BillingStatementLineItemId(String);

impl View for BillingStatementLineItemId {
    type V = Seq<char>;

    closed spec fn view(&self) -> Seq<char> {
        self.0@
    }
}

impl BillingStatementLineItemId {
    /// Wraps an identifier carrying the expected prefix.
    pub fn new(id: &str) -> (r: Self)
        requires
            spec_starts_with(id@, "bstm_li_"@),
        ensures
            r@ == id@,
    {
        BillingStatementLineItemId(id.to_owned())
    }

    /// Wraps an identifier without checking its prefix.
    pub fn new_unchecked(id: &str) -> (r: Self)
        ensures
            r@ == id@,
    {
        BillingStatementLineItemId(id.to_owned())
    }

    /// The identifier string.
    pub fn as_str(&self) -> (r: &str)
        ensures
            r@ == self@,
    {
        self.0.as_str()
    }

    /// Whether the string carries this type's prefix.
    pub fn is_valid(id: &str) -> (r: bool)
        ensures
            r == spec_starts_with(id@, "bstm_li_"@),
    {
        str_starts_with(id, "bstm_li_")
    }

    /// The prefix of this identifier type.
    pub fn prefix() -> (r: &'static str)
        ensures
            r@ == "bstm_li_"@,
    {
        "bstm_li_"
    }
}

impl From<BillingStatementLineItemId> for String {
    /// The identifier string, unwrapped.
    fn from(id: BillingStatementLineItemId) -> (r: String)
        ensures
            r@ == id@,
    {
        id.0
    }
}

impl vstd::std_specs::convert::FromSpecImpl<BillingStatementLineItemId> for String {
    open spec fn obeys_from_spec() -> bool {
        false
    }

    open spec fn from_spec(id: BillingStatementLineItemId) -> String {
        arbitrary()
    }
}

/// Checkout session identifier; the prefix is `cs_`.
#[derive(Debug, Clone, PartialEq, Eq, Hash)]
pub struct CheckoutSessionId(String);

impl View for CheckoutSessionId {
    type V = Seq<char>;

    closed spec fn view(&self) -> Seq<char> {
        self.0@
    }
}

impl CheckoutSessionId {
    /// Wraps an identifier carrying the expected prefix.
    pub fn new(id: &str) -> (r: Self)
        requires
            spec_starts_with(id@, "cs_"@),
        ensures
            r@ == id@,
    {
        CheckoutSessionId(id.to_owned())
    }

    /// Wraps an identifier without checking its prefix.
    pub fn new_unchecked(id: &str) -> (r: Self)
        ensures
            r@ == id@,
    {
        CheckoutSessionId(id.to_owned())
    }

    /// The identifier string.
    pub fn as_str(&self) -> (r: &str)
        ensures
            r@ == self@,
    {
        self.0.as_str()
    }

    /// Whether the string carries this type's prefix.
    pub fn is_valid(id: &str) -> (r: bool)
        ensures
            r == spec_starts_with(id@, "cs_"@),
    {
        str_starts_with(id, "cs_")
    }

    /// The prefix of this identifier type.
    pub fn prefix() -> (r: &'static str)
        ensures
            r@ == "cs_"@,
    {
        "cs_"
    }
}

impl From<CheckoutSessionId> for String {
    /// The identifier string, unwrapped.
    fn from(id: CheckoutSessionId) -> (r: String)
        ensures
            r@ == id@,
    {
        id.0
    }
}

impl vstd::std_specs::convert::FromSpecImpl<CheckoutSessionId> for String {
    open spec fn obeys_from_spec() -> bool {
        false
    }

    open spec fn from_spec(id: CheckoutSessionId) -> String {
        arbitrary()
    }
}

/// Checkout session line item identifier; the prefix is `cs_li_`.
#[derive(Debug, Clone, PartialEq, Eq, Hash)]
pub struct CheckoutSessionLineItemId(String);

impl View for CheckoutSessionLineItemId {
    type V = Seq<char>;

    closed spec fn view(&self) -> Seq<char> {
        self.0@
    }
}

impl CheckoutSessionLineItemId {
    /// Wraps an identifier carrying the expected prefix.
    pub fn new(id: &str) -> (r: Self)
        requires
            spec_starts_with(id@, "cs_li_"@),
        ensures
            r@ == id@,
    {
        CheckoutSessionLineItemId(id.to_owned())
    }

    /// Wraps an identifier without checking its prefix.
    pub fn new_unchecked(id: &str) -> (r: Self)
        ensures
            r@ == id@,
    {
        CheckoutSessionLineItemId(id.to_owned())
    }

    /// The identifier string.
    pub fn as_str(&self) -> (r: &str)
        ensures
            r@ == self@,
    {
        self.0.as_str()
    }

    /// Whether the string carries this type's prefix.
    pub fn is_valid(id: &str) -> (r: bool)
        ensures
            r == spec_starts_with(id@, "cs_li_"@),
    {
        str_starts_with(id, "cs_li_")
    }

    /// The prefix of this identifier type.
    pub fn prefix() -> (r: &'static str)
        ensures
            r@ == "cs_li_"@,
    {
        "cs_li_"
    }
}

impl From<CheckoutSessionLineItemId> for String {
    /// The identifier string, unwrapped.
    fn from(id: CheckoutSessionLineItemId) -> (r: String)
        ensures
            r@ == id@,
    {
        id.0
    }
}

impl vstd::std_specs::convert::FromSpecImpl<CheckoutSessionLineItemId> for String {
    open spec fn obeys_from_spec() -> bool {
        false
    }

    open spec fn from_spec(id: CheckoutSessionLineItemId) -> String {
        arbitrary()
    }
}

/// Payment identifier; the prefix is `pay_`.
#[derive(Debug, Clone, PartialEq, Eq, Hash)]
pub struct PaymentId(String);

impl View for PaymentId {
    type V = Seq<char>;

    closed spec fn view(&self) -> Seq<char> {
        self.0@
    }
}

impl PaymentId {
    /// Wraps an identifier carrying the expected prefix.
    pub fn new(id: &str) -> (r: Self)
        requires
            spec_starts_with(id@, "pay_"@),
        ensures
            r@ == id@,
    {
        PaymentId(id.to_owned())
    }

    /// Wraps an identifier without checking its prefix.
    pub fn new_unchecked(id: &str) -> (r: Self)
        ensures
            r@ == id@,
    {
        PaymentId(id.to_owned())
    }

    /// The identifier string.
    pub fn as_str(&self) -> (r: &str)
        ensures
            r@ == self@,
    {
        self.0.as_str()
    }

    /// Whether the string carries this type's prefix.
    pub fn is_valid(id: &str) -> (r: bool)
        ensures
            r == spec_starts_with(id@, "pay_"@),
    {
        str_starts_with(id, "pay_")
    }

    /// The prefix of this identifier type.
    pub fn prefix() -> (r: &'static str)
        ensures
            r@ == "pay_"@,
    {
        "pay_"
    }
}

impl From<PaymentId> for String {
    /// The identifier string, unwrapped.
    fn from(id: PaymentId) -> (r: String)
        ensures
            r@ == id@,
    {
        id.0
    }
}

impl vstd::std_specs::convert::FromSpecImpl<PaymentId> for String {
    open spec fn obeys_from_spec() -> bool {
        false
    }

    open spec fn from_spec(id: PaymentId) -> String {
        arbitrary()
    }
}

/// Refund identifier; the prefix is `ref_`.
#[derive(Debug, Clone, PartialEq, Eq, Hash)]
pub struct RefundId(String);

impl View for RefundId {
    type V = Seq<char>;

    closed spec fn view(&self) -> Seq<char> {
        self.0@
    }
}

impl RefundId {
    /// Wraps an identifier carrying the expected prefix.
    pub fn new(id: &str) -> (r: Self)
        requires
            spec_starts_with(id@, "ref_"@),
        ensures
            r@ == id@,
    {
        RefundId(id.to_owned())
    }

    /// Wraps an identifier without checking its prefix.
    pub fn new_unchecked(id: &str) -> (r: Self)
        ensures
            r@ == id@,
    {
        RefundId(id.to_owned())
    }

    /// The identifier string.
    pub fn as_str(&self) -> (r: &str)
        ensures
            r@ == self@,
    {
        self.0.as_str()
    }

    /// Whether the string carries this type's prefix.
    pub fn is_valid(id: &str) -> (r: bool)
        ensures
            r == spec_starts_with(id@, "ref_"@),
    {
        str_starts_with(id, "ref_")
    }

    /// The prefix of this identifier type.
    pub fn prefix() -> (r: &'static str)
        ensures
            r@ == "ref_"@,
    {
        "ref_"
    }
}

impl From<RefundId> for String {
    /// The identifier string, unwrapped.
    fn from(id: RefundId) -> (r: String)
        ensures
            r@ == id@,
    {
        id.0
    }
}

impl vstd::std_specs::convert::FromSpecImpl<RefundId> for String {
    open spec fn obeys_from_spec() -> bool {
        false
    }

    open spec fn from_spec(id: RefundId) -> String {
        arbitrary()
    }
}

/// Webhook identifier; the prefix is `wh_`.
#[derive(Debug, Clone, PartialEq, Eq, Hash)]
pub struct WebhookId(String);

impl View for WebhookId {
    type V = Seq<char>;

    closed spec fn view(&self) -> Seq<char> {
        self.0@
    }
}

impl WebhookId {
    /// Wraps an identifier carrying the expected prefix.
    pub fn new(id: &str) -> (r: Self)
        requires
            spec_starts_with(id@, "wh_"@),
        ensures
            r@ == id@,
    {
        WebhookId(id.to_owned())
    }

    /// Wraps an identifier without checking its prefix.
    pub fn new_unchecked(id: &str) -> (r: Self)
        ensures
            r@ == id@,
    {
        WebhookId(id.to_owned())
    }

    /// The identifier string.
    pub fn as_str(&self) -> (r: &str)
        ensures
            r@ == self@,
    {
        self.0.as_str()
    }

    /// Whether the string carries this type's prefix.
    pub fn is_valid(id: &str) -> (r: bool)
        ensures
            r == spec_starts_with(id@, "wh_"@),
    {
        str_starts_with(id, "wh_")
    }

    /// The prefix of this identifier type.
    pub fn prefix() -> (r: &'static str)
        ensures
            r@ == "wh_"@,
    {
        "wh_"
    }
}

impl From<WebhookId> for String {
    /// The identifier string, unwrapped.
    fn from(id: WebhookId) -> (r: String)
        ensures
            r@ == id@,
    {
        id.0
    }
}

impl vstd::std_specs::convert::FromSpecImpl<WebhookId> for String {
    open spec fn obeys_from_spec() -> bool {
        false
    }

    open spec fn from_spec(id: WebhookId) -> String {
        arbitrary()
    }
}

/// Event identifier; the prefix is `evt_`.
#[derive(Debug, Clone, PartialEq, Eq, Hash)]
pub struct EventId(String);

impl View for EventId {
    type V = Seq<char>;

    closed spec fn view(&self) -> Seq<char> {
        self.0@
    }
}

impl EventId {
    /// Wraps an identifier carrying the expected prefix.
    pub fn new(id: &str) -> (r: Self)
        requires
            spec_starts_with(id@, "evt_"@),
        ensures
            r@ == id@,
    {
        EventId(id.to_owned())
    }

    /// Wraps an identifier without checking its prefix.
    pub fn new_unchecked(id: &str) -> (r: Self)
        ensures
            r@ == id@,
    {
        EventId(id.to_owned())
    }

    /// The identifier string.
    pub fn as_str(&self) -> (r: &str)
        ensures
            r@ == self@,
    {
        self.0.as_str()
    }

    /// Whether the string carries this type's prefix.
    pub fn is_valid(id: &str) -> (r: bool)
        ensures
            r == spec_starts_with(id@, "evt_"@),
    {
        str_starts_with(id, "evt_")
    }

    /// The prefix of this identifier type.
    pub fn prefix() -> (r: &'static str)
        ensures
            r@ == "evt_"@,
    {
        "evt_"
    }
}

impl From<EventId> for String {
    /// The identifier string, unwrapped.
    fn from(id: EventId) -> (r: String)
        ensures
            r@ == id@,
    {
        id.0
    }
}

impl vstd::std_specs::convert::FromSpecImpl<EventId> for String {
    open spec fn obeys_from_spec() -> bool {
        false
    }

    open spec fn from_spec(id: EventId) -> String {
        arbitrary()
    }
}

/// Payout identifier; the prefix is `po_`.
#[derive(Debug, Clone, PartialEq, Eq, Hash)]
pub struct PayoutId(String);

impl View for PayoutId {
    type V = Seq<char>;

    closed spec fn view(&self) -> Seq<char> {
        self.0@
    }
}

impl PayoutId {
    /// Wraps an identifier carrying the expected prefix.
    pub fn new(id: &str) -> (r: Self)
        requires
            spec_starts_with(id@, "po_"@),
        ensures
            r@ == id@,
    {
        PayoutId(id.to_owned())
    }

    /// Wraps an identifier without checking its prefix.
    pub fn new_unchecked(id: &str) -> (r: Self)
        ensures
            r@ == id@,
    {
        PayoutId(id.to_owned())
    }

    /// The identifier string.
    pub fn as_str(&self) -> (r: &str)
        ensures
            r@ == self@,
    {
        self.0.as_str()
    }

    /// Whether the string carries this type's prefix.
    pub fn is_valid(id: &str) -> (r: bool)
        ensures
            r == spec_starts_with(id@, "po_"@),
    {
        str_starts_with(id, "po_")
    }

    /// The prefix of this identifier type.
    pub fn prefix() -> (r: &'static str)
        ensures
            r@ == "po_"@,
    {
        "po_"
    }
}

impl From<PayoutId> for String {
    /// The identifier string, unwrapped.
    fn from(id: PayoutId) -> (r: String)
        ensures
            r@ == id@,
    {
        id.0
    }
}

impl vstd::std_specs::convert::FromSpecImpl<PayoutId> for String {
    open spec fn obeys_from_spec() -> bool {
        false
    }

    open spec fn from_spec(id: PayoutId) -> String {
        arbitrary()
    }
}

/// Payout transaction identifier; the prefix is `pot_`.
#[derive(Debug, Clone, PartialEq, Eq, Hash)]
pub struct PayoutTransactionId(String);

impl View for PayoutTransactionId {
    type V = Seq<char>;

    closed spec fn view(&self) -> Seq<char> {
        self.0@
    }
}

impl PayoutTransactionId {
    /// Wraps an identifier carrying the expected prefix.
    pub fn new(id: &str) -> (r: Self)
        requires
            spec_starts_with(id@, "pot_"@),
        ensures
            r@ == id@,
    {
        PayoutTransactionId(id.to_owned())
    }

    /// Wraps an identifier without checking its prefix.
    pub fn new_unchecked(id: &str) -> (r: Self)
        ensures
            r@ == id@,
    {
        PayoutTransactionId(id.to_owned())
    }

    /// The identifier string.
    pub fn as_str(&self) -> (r: &str)
        ensures
            r@ == self@,
    {
        self.0.as_str()
    }

    /// Whether the string carries this type's prefix.
    pub fn is_valid(id: &str) -> (r: bool)
        ensures
            r == spec_starts_with(id@, "pot_"@),
    {
        str_starts_with(id, "pot_")
    }

    /// The prefix of this identifier type.
    pub fn prefix() -> (r: &'static str)
        ensures
            r@ == "pot_"@,
    {
        "pot_"
    }
}

impl From<PayoutTransactionId> for String {
    /// The identifier string, unwrapped.
    fn from(id: PayoutTransactionId) -> (r: String)
        ensures
            r@ == id@,
    {
        id.0
    }
}

impl vstd::std_specs::convert::FromSpecImpl<PayoutTransactionId> for String {
    open spec fn obeys_from_spec() -> bool {
        false
    }

    open spec fn from_spec(id: PayoutTransactionId) -> String {
        arbitrary()
    }
}

} // verus!
