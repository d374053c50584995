//! Event types delivered to webhooks.
//!
//! An event type names a resource family and what happened to it, and travels
//! on the wire as `family.happening` in snake case, with exactly one dot
//! between the two parts. [`EventType::as_str`] renders that form and
//! [`parse_event_type`] reads it back; the two are proved inverse in
//! [`lemma_event_type_round_trip`].

use vstd::prelude::*;

use crate::strutil::str_eq;

verus! {

/// What happened to a billing statement.
#[derive(Debug, Clone, Copy, PartialEq, Eq, Structural)]
pub enum BillingStatementEvent {
    Created,
    Updated,
    Deleted,
    Finalized,
    Sent,
    MarkedUncollectible,
    Voided,
    Paid,
    WillBeDue,
    Overdue,
}

/// What happened to a billing statement line item.
#[derive(Debug, Clone, Copy, PartialEq, Eq, Structural)]
pub enum BillingStatementLineItemEvent {
    Created,
    Updated,
    Deleted,
}

/// What happened to a checkout session.
#[derive(Debug, Clone, Copy, PartialEq, Eq, Structural)]
pub enum CheckoutSessionEvent {
    Expired,
}

/// What happened to a payment intent.
#[derive(Debug, Clone, Copy, PartialEq, Eq, Structural)]
pub enum PaymentIntentEvent {
    AwaitingCapture,
    Succeeded,
}

/// What happened to a payout.
#[derive(Debug, Clone, Copy, PartialEq, Eq, Structural)]
pub enum PayoutEvent {
    Deposited,
}

/// What happened to a refund.
#[derive(Debug, Clone, Copy, PartialEq, Eq, Structural)]
pub enum RefundEvent {
    Created,
    Updated,
}

/// The type of an event: the resource family and what happened.
#[derive(Debug, Clone, Copy, PartialEq, Eq, Structural)]
pub enum EventType {
    BillingStatement(BillingStatementEvent),
    BillingStatementLineItem(BillingStatementLineItemEvent),
    CheckoutSession(CheckoutSessionEvent),
    PaymentIntent(PaymentIntentEvent),
    Payout(PayoutEvent),
    Refund(RefundEvent),
}

/// The wire form of an event type: `family.happening`, in snake case.
pub open spec fn spec_event_type_str(t: EventType) -> Seq<char> {
    match t {
        EventType::BillingStatement(e) => match e {
            BillingStatementEvent::Created => "billing_statement.created"@,
            BillingStatementEvent::Updated => "billing_statement.updated"@,
            BillingStatementEvent::Deleted => "billing_statement.deleted"@,
            BillingStatementEvent::Finalized => "billing_statement.finalized"@,
            BillingStatementEvent::Sent => "billing_statement.sent"@,
            BillingStatementEvent::MarkedUncollectible => "billing_statement.marked_uncollectible"@,
            BillingStatementEvent::Voided => "billing_statement.voided"@,
            BillingStatementEvent::Paid => "billing_statement.paid"@,
            BillingStatementEvent::WillBeDue => "billing_statement.will_be_due"@,
            BillingStatementEvent::Overdue => "billing_statement.overdue"@,
        },
        EventType::BillingStatementLineItem(e) => match e {
            BillingStatementLineItemEvent::Created => "billing_statement_line_item.created"@,
            BillingStatementLineItemEvent::Updated => "billing_statement_line_item.updated"@,
            BillingStatementLineItemEvent::Deleted => "billing_statement_line_item.deleted"@,
        },
        EventType::CheckoutSession(e) => match e {
            CheckoutSessionEvent::Expired => "checkout_session.expired"@,
        },
        EventType::PaymentIntent(e) => match e {
            PaymentIntentEvent::AwaitingCapture => "payment_intent.awaiting_capture"@,
            PaymentIntentEvent::Succeeded => "payment_intent.succeeded"@,
        },
        EventType::Payout(e) => match e {
            PayoutEvent::Deposited => "payout.deposited"@,
        },
        EventType::Refund(e) => match e {
            RefundEvent::Created => "refund.created"@,
            RefundEvent::Updated => "refund.updated"@,
        },
    }
}

/// The happening named by the part after the dot, for this family.
pub open spec fn spec_parse_billing_statement_event(s: Seq<char>) -> Option<BillingStatementEvent> {
    if s == "created"@ {
        Some(BillingStatementEvent::Created)
    } else if s == "updated"@ {
        Some(BillingStatementEvent::Updated)
    } else if s == "deleted"@ {
        Some(BillingStatementEvent::Deleted)
    } else if s == "finalized"@ {
        Some(BillingStatementEvent::Finalized)
    } else if s == "sent"@ {
        Some(BillingStatementEvent::Sent)
    } else if s == "marked_uncollectible"@ {
        Some(BillingStatementEvent::MarkedUncollectible)
    } else if s == "voided"@ {
        Some(BillingStatementEvent::Voided)
    } else if s == "paid"@ {
        Some(BillingStatementEvent::Paid)
    } else if s == "will_be_due"@ {
        Some(BillingStatementEvent::WillBeDue)
    } else if s == "overdue"@ {
        Some(BillingStatementEvent::Overdue)
    } else {
        None
    }
}

fn parse_billing_statement_event(s: &str) -> (r: Option<BillingStatementEvent>)
    ensures
        r == spec_parse_billing_statement_event(s@),
{
    if str_eq(s, "created") {
        Some(BillingStatementEvent::Created)
    } else if str_eq(s, "updated") {
        Some(BillingStatementEvent::Updated)
    } else if str_eq(s, "deleted") {
        Some(BillingStatementEvent::Deleted)
    } else if str_eq(s, "finalized") {
        Some(BillingStatementEvent::Finalized)
    } else if str_eq(s, "sent") {
        Some(BillingStatementEvent::Sent)
    } else if str_eq(s, "marked_uncollectible") {
        Some(BillingStatementEvent::MarkedUncollectible)
    } else if str_eq(s, "voided") {
        Some(BillingStatementEvent::Voided)
    } else if str_eq(s, "paid") {
        Some(BillingStatementEvent::Paid)
    } else if str_eq(s, "will_be_due") {
        Some(BillingStatementEvent::WillBeDue)
    } else if str_eq(s, "overdue") {
        Some(BillingStatementEvent::Overdue)
    } else {
        None
    }
}

/// The happening named by the part after the dot, for this family.
pub open spec fn spec_parse_billing_statement_line_item_event(s: Seq<char>) -> Option<BillingStatementLineItemEvent> {
    if s == "created"@ {
        Some(BillingStatementLineItemEvent::Created)
    } else if s == "updated"@ {
        Some(BillingStatementLineItemEvent::Updated)
    } else if s == "deleted"@ {
        Some(BillingStatementLineItemEvent::Deleted)
    } else {
        None
    }
}

fn parse_billing_statement_line_item_event(s: &str) -> (r: Option<BillingStatementLineItemEvent>)
    ensures
        r == spec_parse_billing_statement_line_item_event(s@),
{
    if str_eq(s, "created") {
        Some(BillingStatementLineItemEvent::Created)
    } else if str_eq(s, "updated") {
        Some(BillingStatementLineItemEvent::Updated)
    } else if str_eq(s, "deleted") {
        Some(BillingStatementLineItemEvent::Deleted)
    } else {
        None
    }
}

/// The happening named by the part after the dot, for this family.
pub open spec fn spec_parse_checkout_session_event(s: Seq<char>) -> Option<CheckoutSessionEvent> {
    if s == "expired"@ {
        Some(CheckoutSessionEvent::Expired)
    } else {
        None
    }
}

fn parse_checkout_session_event(s: &str) -> (r: Option<CheckoutSessionEvent>)
    ensures
        r == spec_parse_checkout_session_event(s@),
{
    if str_eq(s, "expired") {
        Some(CheckoutSessionEvent::Expired)
    } else {
        None
    }
}

/// The happening named by the part after the dot, for this family.
pub open spec fn spec_parse_payment_intent_event(s: Seq<char>) -> Option<PaymentIntentEvent> {
    if s == "awaiting_capture"@ {
        Some(PaymentIntentEvent::AwaitingCapture)
    } else if s == "succeeded"@ {
        Some(PaymentIntentEvent::Succeeded)
    } else {
        None
    }
}

fn parse_payment_intent_event(s: &str) -> (r: Option<PaymentIntentEvent>)
    ensures
        r == spec_parse_payment_intent_event(s@),
{
    if str_eq(s, "awaiting_capture") {
        Some(PaymentIntentEvent::AwaitingCapture)
    } else if str_eq(s, "succeeded") {
        Some(PaymentIntentEvent::Succeeded)
    } else {
        None
    }
}

/// The happening named by the part after the dot, for this family.
pub open spec fn spec_parse_payout_event(s: Seq<char>) -> Option<PayoutEvent> {
    if s == "deposited"@ {
        Some(PayoutEvent::Deposited)
    } else {
        None
    }
}

fn parse_payout_event(s: &str) -> (r: Option<PayoutEvent>)
    ensures
        r == spec_parse_payout_event(s@),
{
    if str_eq(s, "deposited") {
        Some(PayoutEvent::Deposited)
    } else {
        None
    }
}

/// The happening named by the part after the dot, for this family.
pub open spec fn spec_parse_refund_event(s: Seq<char>) -> Option<RefundEvent> {
    if s == "created"@ {
        Some(RefundEvent::Created)
    } else if s == "updated"@ {
        Some(RefundEvent::Updated)
    } else {
        None
    }
}

fn parse_refund_event(s: &str) -> (r: Option<RefundEvent>)
    ensures
        r == spec_parse_refund_event(s@),
{
    if str_eq(s, "created") {
        Some(RefundEvent::Created)
    } else if str_eq(s, "updated") {
        Some(RefundEvent::Updated)
    } else {
        None
    }
}

/// The event type named by the two parts around the dot.
pub open spec fn spec_event_of_parts(prefix: Seq<char>, event: Seq<char>) -> Option<EventType> {
    if prefix == "billing_statement"@ {
        match spec_parse_billing_statement_event(event) {
            Some(e) => Some(EventType::BillingStatement(e)),
            None => None,
        }
    } else if prefix == "billing_statement_line_item"@ {
        match spec_parse_billing_statement_line_item_event(event) {
            Some(e) => Some(EventType::BillingStatementLineItem(e)),
            None => None,
        }
    } else if prefix == "checkout_session"@ {
        match spec_parse_checkout_session_event(event) {
            Some(e) => Some(EventType::CheckoutSession(e)),
            None => None,
        }
    } else if prefix == "payment_intent"@ {
        match spec_parse_payment_intent_event(event) {
            Some(e) => Some(EventType::PaymentIntent(e)),
            None => None,
        }
    } else if prefix == "payout"@ {
        match spec_parse_payout_event(event) {
            Some(e) => Some(EventType::Payout(e)),
            None => None,
        }
    } else if prefix == "refund"@ {
        match spec_parse_refund_event(event) {
            Some(e) => Some(EventType::Refund(e)),
            None => None,
        }
    } else {
        None
    }
}

fn event_of_parts(prefix: &str, event: &str) -> (r: Option<EventType>)
    ensures
        r == spec_event_of_parts(prefix@, event@),
{
    if str_eq(prefix, "billing_statement") {
        match parse_billing_statement_event(event) {
            Some(e) => Some(EventType::BillingStatement(e)),
            None => None,
        }
    } else if str_eq(prefix, "billing_statement_line_item") {
        match parse_billing_statement_line_item_event(event) {
            Some(e) => Some(EventType::BillingStatementLineItem(e)),
            None => None,
        }
    } else if str_eq(prefix, "checkout_session") {
        match parse_checkout_session_event(event) {
            Some(e) => Some(EventType::CheckoutSession(e)),
            None => None,
        }
    } else if str_eq(prefix, "payment_intent") {
        match parse_payment_intent_event(event) {
            Some(e) => Some(EventType::PaymentIntent(e)),
            None => None,
        }
    } else if str_eq(prefix, "payout") {
        match parse_payout_event(event) {
            Some(e) => Some(EventType::Payout(e)),
            None => None,
        }
    } else if str_eq(prefix, "refund") {
        match parse_refund_event(event) {
            Some(e) => Some(EventType::Refund(e)),
            None => None,
        }
    } else {
        None
    }
}

impl EventType {
    /// Renders the wire form of this event type.
    pub fn as_str(&self) -> (r: &'static str)
        ensures
            r@ == spec_event_type_str(*self),
    {
        match self {
            EventType::BillingStatement(BillingStatementEvent::Created) => "billing_statement.created",
            EventType::BillingStatement(BillingStatementEvent::Updated) => "billing_statement.updated",
            EventType::BillingStatement(BillingStatementEvent::Deleted) => "billing_statement.deleted",
            EventType::BillingStatement(BillingStatementEvent::Finalized) => "billing_statement.finalized",
            EventType::BillingStatement(BillingStatementEvent::Sent) => "billing_statement.sent",
            EventType::BillingStatement(BillingStatementEvent::MarkedUncollectible) => "billing_statement.marked_uncollectible",
            EventType::BillingStatement(BillingStatementEvent::Voided) => "billing_statement.voided",
            EventType::BillingStatement(BillingStatementEvent::Paid) => "billing_statement.paid",
            EventType::BillingStatement(BillingStatementEvent::WillBeDue) => "billing_statement.will_be_due",
            EventType::BillingStatement(BillingStatementEvent::Overdue) => "billing_statement.overdue",
            EventType::BillingStatementLineItem(BillingStatementLineItemEvent::Created) => "billing_statement_line_item.created",
            EventType::BillingStatementLineItem(BillingStatementLineItemEvent::Updated) => "billing_statement_line_item.updated",
            EventType::BillingStatementLineItem(BillingStatementLineItemEvent::Deleted) => "billing_statement_line_item.deleted",
            EventType::CheckoutSession(CheckoutSessionEvent::Expired) => "checkout_session.expired",
            EventType::PaymentIntent(PaymentIntentEvent::AwaitingCapture) => "payment_intent.awaiting_capture",
            EventType::PaymentIntent(PaymentIntentEvent::Succeeded) => "payment_intent.succeeded",
            EventType::Payout(PayoutEvent::Deposited) => "payout.deposited",
            EventType::Refund(RefundEvent::Created) => "refund.created",
            EventType::Refund(RefundEvent::Updated) => "refund.updated",
        }
    }
}

/// No character but possibly the one at `i` is a dot.
pub open spec fn spec_only_dot_at(s: Seq<char>, i: int) -> bool {
    forall|j: int| 0 <= j < s.len() && j != i ==> s[j] != '.'
}

/// The index of the dot, when the string holds exactly one.
pub open spec fn spec_single_dot(s: Seq<char>) -> Option<int> {
    if exists|i: int| 0 <= i < s.len() && #[trigger] s[i] == '.' && spec_only_dot_at(s, i) {
        Some(choose|i: int| 0 <= i < s.len() && #[trigger] s[i] == '.' && spec_only_dot_at(s, i))
    } else {
        None
    }
}

/// A dot with no other dot around it is the single dot.
proof fn lemma_single_dot_at(s: Seq<char>, d: int)
    requires
        0 <= d < s.len(),
        s[d] == '.',
        spec_only_dot_at(s, d),
    ensures
        spec_single_dot(s) == Some(d),
{
    assert(0 <= d < s.len() && s[d] == '.' && spec_only_dot_at(s, d));
    let c = choose|i: int| 0 <= i < s.len() && #[trigger] s[i] == '.' && spec_only_dot_at(s, i);
    if c != d {
        assert(s[d] != '.');
    }
}

/// What the wire form of an event type names: the parts around the single
/// dot, matched against the families and their happenings; anything else —
/// no dot, more than one dot, or an unknown part — names nothing.
pub open spec fn spec_parse_event_type(s: Seq<char>) -> Option<EventType> {
    match spec_single_dot(s) {
        Some(i) => spec_event_of_parts(s.subrange(0, i), s.subrange(i + 1, s.len() as int)),
        None => None,
    }
}

/// Reads an event type from its wire form.
pub fn parse_event_type(s: &str) -> (r: Option<EventType>)
    ensures
        r == spec_parse_event_type(s@),
{
    let len = s.unicode_len();
    let mut dot: Option<usize> = None;
    let mut i: usize = 0;
    while i < len
        invariant
            i <= len,
            len == s@.len(),
            match dot {
                None => forall|j: int| 0 <= j < i ==> s@[j] != '.',
                Some(d) => d < i && s@[d as int] == '.' && (forall|j: int|
                    0 <= j < i && j != d ==> s@[j] != '.'),
            },
        decreases len - i,
    {
        if s.get_char(i) == '.' {
            match dot {
                None => {
                    dot = Some(i);
                },
                Some(d) => {
                    proof {
                        assert forall|k: int|
                            !(0 <= k < s@.len() && #[trigger] s@[k] == '.' && spec_only_dot_at(
                                s@,
                                k,
                            )) by {
                            if 0 <= k < s@.len() && s@[k] == '.' && spec_only_dot_at(s@, k) {
                                if k == d {
                                    assert(s@[i as int] == '.');
                                } else {
                                    assert(s@[d as int] == '.');
                                }
                            }
                        }
                    }
                    return None;
                },
            }
        }
        i = i + 1;
    }
    match dot {
        None => {
            proof {
                assert forall|k: int|
                    !(0 <= k < s@.len() && #[trigger] s@[k] == '.' && spec_only_dot_at(s@, k)) by {
                    if 0 <= k < s@.len() && s@[k] == '.' {
                        assert(s@[k] != '.');
                    }
                }
            }
            None
        },
        Some(d) => {
            proof {
                lemma_single_dot_at(s@, d as int);
            }
            let prefix = s.substring_char(0, d);
            let event = s.substring_char(d + 1, len);
            event_of_parts(prefix, event)
        },
    }
}

/// Distinct event types render distinctly: the wire form determines the
/// event type.
pub proof fn lemma_event_type_str_injective(a: EventType, b: EventType)
    requires
        spec_event_type_str(a) == spec_event_type_str(b),
    ensures
        a == b,
{
    lemma_event_type_round_trip(a);
    lemma_event_type_round_trip(b);
}

/// Rendering an event type and reading it back yields the event type again.
pub proof fn lemma_event_type_round_trip(t: EventType)
    ensures
        spec_parse_event_type(spec_event_type_str(t)) == Some(t),
{
    match t {
        EventType::BillingStatement(e) => match e {
            BillingStatementEvent::Created => {
                reveal_strlit("billing_statement.created");
                reveal_strlit("billing_statement");
                reveal_strlit("created");
                let s = "billing_statement.created"@;
                assert(spec_only_dot_at(s, 17)) by {
                    assert(s[0] == 'b');
                    assert(s[1] == 'i');
                    assert(s[2] == 'l');
                    assert(s[3] == 'l');
                    assert(s[4] == 'i');
                    assert(s[5] == 'n');
                    assert(s[6] == 'g');
                    assert(s[7] == '_');
                    assert(s[8] == 's');
                    assert(s[9] == 't');
                    assert(s[10] == 'a');
                    assert(s[11] == 't');
                    assert(s[12] == 'e');
                    assert(s[13] == 'm');
                    assert(s[14] == 'e');
                    assert(s[15] == 'n');
                    assert(s[16] == 't');
                    assert(s[18] == 'c');
                    assert(s[19] == 'r');
                    assert(s[20] == 'e');
                    assert(s[21] == 'a');
                    assert(s[22] == 't');
                    assert(s[23] == 'e');
                    assert(s[24] == 'd');
                }
                lemma_single_dot_at(s, 17);
                assert(s.subrange(0, 17) =~= "billing_statement"@);
                assert(s.subrange(18, s.len() as int) =~= "created"@);
            },
            BillingStatementEvent::Updated => {
                reveal_strlit("billing_statement.updated");
                reveal_strlit("billing_statement");
                reveal_strlit("updated");
                reveal_strlit("created");
                let s = "billing_statement.updated"@;
                assert(spec_only_dot_at(s, 17)) by {
                    assert(s[0] == 'b');
                    assert(s[1] == 'i');
                    assert(s[2] == 'l');
                    assert(s[3] == 'l');
                    assert(s[4] == 'i');
                    assert(s[5] == 'n');
                    assert(s[6] == 'g');
                    assert(s[7] == '_');
                    assert(s[8] == 's');
                    assert(s[9] == 't');
                    assert(s[10] == 'a');
                    assert(s[11] == 't');
                    assert(s[12] == 'e');
                    assert(s[13] == 'm');
                    assert(s[14] == 'e');
                    assert(s[15] == 'n');
                    assert(s[16] == 't');
                    assert(s[18] == 'u');
                    assert(s[19] == 'p');
                    assert(s[20] == 'd');
                    assert(s[21] == 'a');
                    assert(s[22] == 't');
                    assert(s[23] == 'e');
                    assert(s[24] == 'd');
                }
                lemma_single_dot_at(s, 17);
                assert(s.subrange(0, 17) =~= "billing_statement"@);
                assert(s.subrange(18, s.len() as int) =~= "updated"@);
                assert("updated"@ != "created"@) by {
                    assert("updated"@[0] == 'u');
                    assert("created"@[0] == 'c');
                }
            },
            BillingStatementEvent::Deleted => {
                reveal_strlit("billing_statement.deleted");
                reveal_strlit("billing_statement");
                reveal_strlit("deleted");
                reveal_strlit("created");
                reveal_strlit("updated");
                let s = "billing_statement.deleted"@;
                assert(spec_only_dot_at(s, 17)) by {
                    assert(s[0] == 'b');
                    assert(s[1] == 'i');
                    assert(s[2] == 'l');
                    assert(s[3] == 'l');
                    assert(s[4] == 'i');
                    assert(s[5] == 'n');
                    assert(s[6] == 'g');
                    assert(s[7] == '_');
                    assert(s[8] == 's');
                    assert(s[9] == 't');
                    assert(s[10] == 'a');
                    assert(s[11] == 't');
                    assert(s[12] == 'e');
                    assert(s[13] == 'm');
                    assert(s[14] == 'e');
                    assert(s[15] == 'n');
                    assert(s[16] == 't');
                    assert(s[18] == 'd');
                    assert(s[19] == 'e');
                    assert(s[20] == 'l');
                    assert(s[21] == 'e');
                    assert(s[22] == 't');
                    assert(s[23] == 'e');
                    assert(s[24] == 'd');
                }
                lemma_single_dot_at(s, 17);
                assert(s.subrange(0, 17) =~= "billing_statement"@);
                assert(s.subrange(18, s.len() as int) =~= "deleted"@);
                assert("deleted"@ != "created"@) by {
                    assert("deleted"@[0] == 'd');
                    assert("created"@[0] == 'c');
                }
                assert("deleted"@ != "updated"@) by {
                    assert("deleted"@[0] == 'd');
                    assert("updated"@[0] == 'u');
                }
            },
            BillingStatementEvent::Finalized => {
                reveal_strlit("billing_statement.finalized");
                reveal_strlit("billing_statement");
                reveal_strlit("finalized");
                reveal_strlit("created");
                reveal_strlit("updated");
                reveal_strlit("deleted");
                let s = "billing_statement.finalized"@;
                assert(spec_only_dot_at(s, 17)) by {
                    assert(s[0] == 'b');
                    assert(s[1] == 'i');
                    assert(s[2] == 'l');
                    assert(s[3] == 'l');
                    assert(s[4] == 'i');
                    assert(s[5] == 'n');
                    assert(s[6] == 'g');
                    assert(s[7] == '_');
                    assert(s[8] == 's');
                    assert(s[9] == 't');
                    assert(s[10] == 'a');
                    assert(s[11] == 't');
                    assert(s[12] == 'e');
                    assert(s[13] == 'm');
                    assert(s[14] == 'e');
                    assert(s[15] == 'n');
                    assert(s[16] == 't');
                    assert(s[18] == 'f');
                    assert(s[19] == 'i');
                    assert(s[20] == 'n');
                    assert(s[21] == 'a');
                    assert(s[22] == 'l');
                    assert(s[23] == 'i');
                    assert(s[24] == 'z');
                    assert(s[25] == 'e');
                    assert(s[26] == 'd');
                }
                lemma_single_dot_at(s, 17);
                assert(s.subrange(0, 17) =~= "billing_statement"@);
                assert(s.subrange(18, s.len() as int) =~= "finalized"@);
                assert("finalized"@ != "created"@) by {
                    assert("finalized"@.len() == 9);
                    assert("created"@.len() == 7);
                }
                assert("finalized"@ != "updated"@) by {
                    assert("finalized"@.len() == 9);
                    assert("updated"@.len() == 7);
                }
                assert("finalized"@ != "deleted"@) by {
                    assert("finalized"@.len() == 9);
                    assert("deleted"@.len() == 7);
                }
            },
            BillingStatementEvent::Sent => {
                reveal_strlit("billing_statement.sent");
                reveal_strlit("billing_statement");
                reveal_strlit("sent");
                reveal_strlit("created");
                reveal_strlit("updated");
                reveal_strlit("deleted");
                reveal_strlit("finalized");
                let s = "billing_statement.sent"@;
                assert(spec_only_dot_at(s, 17)) by {
                    assert(s[0] == 'b');
                    assert(s[1] == 'i');
                    assert(s[2] == 'l');
                    assert(s[3] == 'l');
                    assert(s[4] == 'i');
                    assert(s[5] == 'n');
                    assert(s[6] == 'g');
                    assert(s[7] == '_');
                    assert(s[8] == 's');
                    assert(s[9] == 't');
                    assert(s[10] == 'a');
                    assert(s[11] == 't');
                    assert(s[12] == 'e');
                    assert(s[13] == 'm');
                    assert(s[14] == 'e');
                    assert(s[15] == 'n');
                    assert(s[16] == 't');
                    assert(s[18] == 's');
                    assert(s[19] == 'e');
                    assert(s[20] == 'n');
                    assert(s[21] == 't');
                }
                lemma_single_dot_at(s, 17);
                assert(s.subrange(0, 17) =~= "billing_statement"@);
                assert(s.subrange(18, s.len() as int) =~= "sent"@);
                assert("sent"@ != "created"@) by {
                    assert("sent"@.len() == 4);
                    assert("created"@.len() == 7);
                }
                assert("sent"@ != "updated"@) by {
                    assert("sent"@.len() == 4);
                    assert("updated"@.len() == 7);
                }
                assert("sent"@ != "deleted"@) by {
                    assert("sent"@.len() == 4);
                    assert("deleted"@.len() == 7);
                }
                assert("sent"@ != "finalized"@) by {
                    assert("sent"@.len() == 4);
                    assert("finalized"@.len() == 9);
                }
            },
            BillingStatementEvent::MarkedUncollectible => {
                reveal_strlit("billing_statement.marked_uncollectible");
                reveal_strlit("billing_statement");
                reveal_strlit("marked_uncollectible");
                reveal_strlit("created");
                reveal_strlit("updated");
                reveal_strlit("deleted");
                reveal_strlit("finalized");
                reveal_strlit("sent");
                let s = "billing_statement.marked_uncollectible"@;
                assert(spec_only_dot_at(s, 17)) by {
                    assert(s[0] == 'b');
                    assert(s[1] == 'i');
                    assert(s[2] == 'l');
                    assert(s[3] == 'l');
                    assert(s[4] == 'i');
                    assert(s[5] == 'n');
                    assert(s[6] == 'g');
                    assert(s[7] == '_');
                    assert(s[8] == 's');
                    assert(s[9] == 't');
                    assert(s[10] == 'a');
                    assert(s[11] == 't');
                    assert(s[12] == 'e');
                    assert(s[13] == 'm');
                    assert(s[14] == 'e');
                    assert(s[15] == 'n');
                    assert(s[16] == 't');
                    assert(s[18] == 'm');
                    assert(s[19] == 'a');
                    assert(s[20] == 'r');
                    assert(s[21] == 'k');
                    assert(s[22] == 'e');
                    assert(s[23] == 'd');
                    assert(s[24] == '_');
                    assert(s[25] == 'u');
                    assert(s[26] == 'n');
                    assert(s[27] == 'c');
                    assert(s[28] == 'o');
                    assert(s[29] == 'l');
                    assert(s[30] == 'l');
                    assert(s[31] == 'e');
                    assert(s[32] == 'c');
                    assert(s[33] == 't');
                    assert(s[34] == 'i');
                    assert(s[35] == 'b');
                    assert(s[36] == 'l');
                    assert(s[37] == 'e');
                }
                lemma_single_dot_at(s, 17);
                assert(s.subrange(0, 17) =~= "billing_statement"@);
                assert(s.subrange(18, s.len() as int) =~= "marked_uncollectible"@);
                assert("marked_uncollectible"@ != "created"@) by {
                    assert("marked_uncollectible"@.len() == 20);
                    assert("created"@.len() == 7);
                }
                assert("marked_uncollectible"@ != "updated"@) by {
                    assert("marked_uncollectible"@.len() == 20);
                    assert("updated"@.len() == 7);
                }
                assert("marked_uncollectible"@ != "deleted"@) by {
                    assert("marked_uncollectible"@.len() == 20);
                    assert("deleted"@.len() == 7);
                }
                assert("marked_uncollectible"@ != "finalized"@) by {
                    assert("marked_uncollectible"@.len() == 20);
                    assert("finalized"@.len() == 9);
                }
                assert("marked_uncollectible"@ != "sent"@) by {
                    assert("marked_uncollectible"@.len() == 20);
                    assert("sent"@.len() == 4);
                }
            },
            BillingStatementEvent::Voided => {
                reveal_strlit("billing_statement.voided");
                reveal_strlit("billing_statement");
                reveal_strlit("voided");
                reveal_strlit("created");
                reveal_strlit("updated");
                reveal_strlit("deleted");
                reveal_strlit("finalized");
                reveal_strlit("sent");
                reveal_strlit("marked_uncollectible");
                let s = "billing_statement.voided"@;
                assert(spec_only_dot_at(s, 17)) by {
                    assert(s[0] == 'b');
                    assert(s[1] == 'i');
                    assert(s[2] == 'l');
                    assert(s[3] == 'l');
                    assert(s[4] == 'i');
                    assert(s[5] == 'n');
                    assert(s[6] == 'g');
                    assert(s[7] == '_');
                    assert(s[8] == 's');
                    assert(s[9] == 't');
                    assert(s[10] == 'a');
                    assert(s[11] == 't');
                    assert(s[12] == 'e');
                    assert(s[13] == 'm');
                    assert(s[14] == 'e');
                    assert(s[15] == 'n');
                    assert(s[16] == 't');
                    assert(s[18] == 'v');
                    assert(s[19] == 'o');
                    assert(s[20] == 'i');
                    assert(s[21] == 'd');
                    assert(s[22] == 'e');
                    assert(s[23] == 'd');
                }
                lemma_single_dot_at(s, 17);
                assert(s.subrange(0, 17) =~= "billing_statement"@);
                assert(s.subrange(18, s.len() as int) =~= "voided"@);
                assert("voided"@ != "created"@) by {
                    assert("voided"@.len() == 6);
                    assert("created"@.len() == 7);
                }
                assert("voided"@ != "updated"@) by {
                    assert("voided"@.len() == 6);
                    assert("updated"@.len() == 7);
                }
                assert("voided"@ != "deleted"@) by {
                    assert("voided"@.len() == 6);
                    assert("deleted"@.len() == 7);
                }
                assert("voided"@ != "finalized"@) by {
                    assert("voided"@.len() == 6);
                    assert("finalized"@.len() == 9);
                }
                assert("voided"@ != "sent"@) by {
                    assert("voided"@.len() == 6);
                    assert("sent"@.len() == 4);
                }
                assert("voided"@ != "marked_uncollectible"@) by {
                    assert("voided"@.len() == 6);
                    assert("marked_uncollectible"@.len() == 20);
                }
            },
            BillingStatementEvent::Paid => {
                reveal_strlit("billing_statement.paid");
                reveal_strlit("billing_statement");
                reveal_strlit("paid");
                reveal_strlit("created");
                reveal_strlit("updated");
                reveal_strlit("deleted");
                reveal_strlit("finalized");
                reveal_strlit("sent");
                reveal_strlit("marked_uncollectible");
                reveal_strlit("voided");
                let s = "billing_statement.paid"@;
                assert(spec_only_dot_at(s, 17)) by {
                    assert(s[0] == 'b');
                    assert(s[1] == 'i');
                    assert(s[2] == 'l');
                    assert(s[3] == 'l');
                    assert(s[4] == 'i');
                    assert(s[5] == 'n');
                    assert(s[6] == 'g');
                    assert(s[7] == '_');
                    assert(s[8] == 's');
                    assert(s[9] == 't');
                    assert(s[10] == 'a');
                    assert(s[11] == 't');
                    assert(s[12] == 'e');
                    assert(s[13] == 'm');
                    assert(s[14] == 'e');
                    assert(s[15] == 'n');
                    assert(s[16] == 't');
                    assert(s[18] == 'p');
                    assert(s[19] == 'a');
                    assert(s[20] == 'i');
                    assert(s[21] == 'd');
                }
                lemma_single_dot_at(s, 17);
                assert(s.subrange(0, 17) =~= "billing_statement"@);
                assert(s.subrange(18, s.len() as int) =~= "paid"@);
                assert("paid"@ != "created"@) by {
                    assert("paid"@.len() == 4);
                    assert("created"@.len() == 7);
                }
                assert("paid"@ != "updated"@) by {
                    assert("paid"@.len() == 4);
                    assert("updated"@.len() == 7);
                }
                assert("paid"@ != "deleted"@) by {
                    assert("paid"@.len() == 4);
                    assert("deleted"@.len() == 7);
                }
                assert("paid"@ != "finalized"@) by {
                    assert("paid"@.len() == 4);
                    assert("finalized"@.len() == 9);
                }
                assert("paid"@ != "sent"@) by {
                    assert("paid"@[0] == 'p');
                    assert("sent"@[0] == 's');
                }
                assert("paid"@ != "marked_uncollectible"@) by {
                    assert("paid"@.len() == 4);
                    assert("marked_uncollectible"@.len() == 20);
                }
                assert("paid"@ != "voided"@) by {
                    assert("paid"@.len() == 4);
                    assert("voided"@.len() == 6);
                }
            },
            BillingStatementEvent::WillBeDue => {
                reveal_strlit("billing_statement.will_be_due");
                reveal_strlit("billing_statement");
                reveal_strlit("will_be_due");
                reveal_strlit("created");
                reveal_strlit("updated");
                reveal_strlit("deleted");
                reveal_strlit("finalized");
                reveal_strlit("sent");
                reveal_strlit("marked_uncollectible");
                reveal_strlit("voided");
                reveal_strlit("paid");
                let s = "billing_statement.will_be_due"@;
                assert(spec_only_dot_at(s, 17)) by {
                    assert(s[0] == 'b');
                    assert(s[1] == 'i');
                    assert(s[2] == 'l');
                    assert(s[3] == 'l');
                    assert(s[4] == 'i');
                    assert(s[5] == 'n');
                    assert(s[6] == 'g');
                    assert(s[7] == '_');
                    assert(s[8] == 's');
                    assert(s[9] == 't');
                    assert(s[10] == 'a');
                    assert(s[11] == 't');
                    assert(s[12] == 'e');
                    assert(s[13] == 'm');
                    assert(s[14] == 'e');
                    assert(s[15] == 'n');
                    assert(s[16] == 't');
                    assert(s[18] == 'w');
                    assert(s[19] == 'i');
                    assert(s[20] == 'l');
                    assert(s[21] == 'l');
                    assert(s[22] == '_');
                    assert(s[23] == 'b');
                    assert(s[24] == 'e');
                    assert(s[25] == '_');
                    assert(s[26] == 'd');
                    assert(s[27] == 'u');
                    assert(s[28] == 'e');
                }
                lemma_single_dot_at(s, 17);
                assert(s.subrange(0, 17) =~= "billing_statement"@);
                assert(s.subrange(18, s.len() as int) =~= "will_be_due"@);
                assert("will_be_due"@ != "created"@) by {
                    assert("will_be_due"@.len() == 11);
                    assert("created"@.len() == 7);
                }
                assert("will_be_due"@ != "updated"@) by {
                    assert("will_be_due"@.len() == 11);
                    assert("updated"@.len() == 7);
                }
                assert("will_be_due"@ != "deleted"@) by {
                    assert("will_be_due"@.len() == 11);
                    assert("deleted"@.len() == 7);
                }
                assert("will_be_due"@ != "finalized"@) by {
                    assert("will_be_due"@.len() == 11);
                    assert("finalized"@.len() == 9);
                }
                assert("will_be_due"@ != "sent"@) by {
                    assert("will_be_due"@.len() == 11);
                    assert("sent"@.len() == 4);
                }
                assert("will_be_due"@ != "marked_uncollectible"@) by {
                    assert("will_be_due"@.len() == 11);
                    assert("marked_uncollectible"@.len() == 20);
                }
                assert("will_be_due"@ != "voided"@) by {
                    assert("will_be_due"@.len() == 11);
                    assert("voided"@.len() == 6);
                }
                assert("will_be_due"@ != "paid"@) by {
                    assert("will_be_due"@.len() == 11);
                    assert("paid"@.len() == 4);
                }
            },
            BillingStatementEvent::Overdue => {
                reveal_strlit("billing_statement.overdue");
                reveal_strlit("billing_statement");
                reveal_strlit("overdue");
                reveal_strlit("created");
                reveal_strlit("updated");
                reveal_strlit("deleted");
                reveal_strlit("finalized");
                reveal_strlit("sent");
                reveal_strlit("marked_uncollectible");
                reveal_strlit("voided");
                reveal_strlit("paid");
                reveal_strlit("will_be_due");
                let s = "billing_statement.overdue"@;
                assert(spec_only_dot_at(s, 17)) by {
                    assert(s[0] == 'b');
                    assert(s[1] == 'i');
                    assert(s[2] == 'l');
                    assert(s[3] == 'l');
                    assert(s[4] == 'i');
                    assert(s[5] == 'n');
                    assert(s[6] == 'g');
                    assert(s[7] == '_');
                    assert(s[8] == 's');
                    assert(s[9] == 't');
                    assert(s[10] == 'a');
                    assert(s[11] == 't');
                    assert(s[12] == 'e');
                    assert(s[13] == 'm');
                    assert(s[14] == 'e');
                    assert(s[15] == 'n');
                    assert(s[16] == 't');
                    assert(s[18] == 'o');
                    assert(s[19] == 'v');
                    assert(s[20] == 'e');
                    assert(s[21] == 'r');
                    assert(s[22] == 'd');
                    assert(s[23] == 'u');
                    assert(s[24] == 'e');
                }
                lemma_single_dot_at(s, 17);
                assert(s.subrange(0, 17) =~= "billing_statement"@);
                assert(s.subrange(18, s.len() as int) =~= "overdue"@);
                assert("overdue"@ != "created"@) by {
                    assert("overdue"@[0] == 'o');
                    assert("created"@[0] == 'c');
                }
                assert("overdue"@ != "updated"@) by {
                    assert("overdue"@[0] == 'o');
                    assert("updated"@[0] == 'u');
                }
                assert("overdue"@ != "deleted"@) by {
                    assert("overdue"@[0] == 'o');
                    assert("deleted"@[0] == 'd');
                }
                assert("overdue"@ != "finalized"@) by {
                    assert("overdue"@.len() == 7);
                    assert("finalized"@.len() == 9);
                }
                assert("overdue"@ != "sent"@) by {
                    assert("overdue"@.len() == 7);
                    assert("sent"@.len() == 4);
                }
                assert("overdue"@ != "marked_uncollectible"@) by {
                    assert("overdue"@.len() == 7);
                    assert("marked_uncollectible"@.len() == 20);
                }
                assert("overdue"@ != "voided"@) by {
                    assert("overdue"@.len() == 7);
                    assert("voided"@.len() == 6);
                }
                assert("overdue"@ != "paid"@) by {
                    assert("overdue"@.len() == 7);
                    assert("paid"@.len() == 4);
                }
                assert("overdue"@ != "will_be_due"@) by {
                    assert("overdue"@.len() == 7);
                    assert("will_be_due"@.len() == 11);
                }
            },
        },
        EventType::BillingStatementLineItem(e) => match e {
            BillingStatementLineItemEvent::Created => {
                reveal_strlit("billing_statement_line_item.created");
                reveal_strlit("billing_statement_line_item");
                reveal_strlit("created");
                reveal_strlit("billing_statement");
                let s = "billing_statement_line_item.created"@;
                assert(spec_only_dot_at(s, 27)) by {
                    assert(s[0] == 'b');
                    assert(s[1] == 'i');
                    assert(s[2] == 'l');
                    assert(s[3] == 'l');
                    assert(s[4] == 'i');
                    assert(s[5] == 'n');
                    assert(s[6] == 'g');
                    assert(s[7] == '_');
                    assert(s[8] == 's');
                    assert(s[9] == 't');
                    assert(s[10] == 'a');
                    assert(s[11] == 't');
                    assert(s[12] == 'e');
                    assert(s[13] == 'm');
                    assert(s[14] == 'e');
                    assert(s[15] == 'n');
                    assert(s[16] == 't');
                    assert(s[17] == '_');
                    assert(s[18] == 'l');
                    assert(s[19] == 'i');
                    assert(s[20] == 'n');
                    assert(s[21] == 'e');
                    assert(s[22] == '_');
                    assert(s[23] == 'i');
                    assert(s[24] == 't');
                    assert(s[25] == 'e');
                    assert(s[26] == 'm');
                    assert(s[28] == 'c');
                    assert(s[29] == 'r');
                    assert(s[30] == 'e');
                    assert(s[31] == 'a');
                    assert(s[32] == 't');
                    assert(s[33] == 'e');
                    assert(s[34] == 'd');
                }
                lemma_single_dot_at(s, 27);
                assert(s.subrange(0, 27) =~= "billing_statement_line_item"@);
                assert(s.subrange(28, s.len() as int) =~= "created"@);
                assert("billing_statement_line_item"@ != "billing_statement"@) by {
                    assert("billing_statement_line_item"@.len() == 27);
                    assert("billing_statement"@.len() == 17);
                }
            },
            BillingStatementLineItemEvent::Updated => {
                reveal_strlit("billing_statement_line_item.updated");
                reveal_strlit("billing_statement_line_item");
                reveal_strlit("updated");
                reveal_strlit("billing_statement");
                reveal_strlit("created");
                let s = "billing_statement_line_item.updated"@;
                assert(spec_only_dot_at(s, 27)) by {
                    assert(s[0] == 'b');
                    assert(s[1] == 'i');
                    assert(s[2] == 'l');
                    assert(s[3] == 'l');
                    assert(s[4] == 'i');
                    assert(s[5] == 'n');
                    assert(s[6] == 'g');
                    assert(s[7] == '_');
                    assert(s[8] == 's');
                    assert(s[9] == 't');
                    assert(s[10] == 'a');
                    assert(s[11] == 't');
                    assert(s[12] == 'e');
                    assert(s[13] == 'm');
                    assert(s[14] == 'e');
                    assert(s[15] == 'n');
                    assert(s[16] == 't');
                    assert(s[17] == '_');
                    assert(s[18] == 'l');
                    assert(s[19] == 'i');
                    assert(s[20] == 'n');
                    assert(s[21] == 'e');
                    assert(s[22] == '_');
                    assert(s[23] == 'i');
                    assert(s[24] == 't');
                    assert(s[25] == 'e');
                    assert(s[26] == 'm');
                    assert(s[28] == 'u');
                    assert(s[29] == 'p');
                    assert(s[30] == 'd');
                    assert(s[31] == 'a');
                    assert(s[32] == 't');
                    assert(s[33] == 'e');
                    assert(s[34] == 'd');
                }
                lemma_single_dot_at(s, 27);
                assert(s.subrange(0, 27) =~= "billing_statement_line_item"@);
                assert(s.subrange(28, s.len() as int) =~= "updated"@);
                assert("billing_statement_line_item"@ != "billing_statement"@) by {
                    assert("billing_statement_line_item"@.len() == 27);
                    assert("billing_statement"@.len() == 17);
                }
                assert("updated"@ != "created"@) by {
                    assert("updated"@[0] == 'u');
                    assert("created"@[0] == 'c');
                }
            },
            BillingStatementLineItemEvent::Deleted => {
                reveal_strlit("billing_statement_line_item.deleted");
                reveal_strlit("billing_statement_line_item");
                reveal_strlit("deleted");
                reveal_strlit("billing_statement");
                reveal_strlit("created");
                reveal_strlit("updated");
                let s = "billing_statement_line_item.deleted"@;
                assert(spec_only_dot_at(s, 27)) by {
                    assert(s[0] == 'b');
                    assert(s[1] == 'i');
                    assert(s[2] == 'l');
                    assert(s[3] == 'l');
                    assert(s[4] == 'i');
                    assert(s[5] == 'n');
                    assert(s[6] == 'g');
                    assert(s[7] == '_');
                    assert(s[8] == 's');
                    assert(s[9] == 't');
                    assert(s[10] == 'a');
                    assert(s[11] == 't');
                    assert(s[12] == 'e');
                    assert(s[13] == 'm');
                    assert(s[14] == 'e');
                    assert(s[15] == 'n');
                    assert(s[16] == 't');
                    assert(s[17] == '_');
                    assert(s[18] == 'l');
                    assert(s[19] == 'i');
                    assert(s[20] == 'n');
                    assert(s[21] == 'e');
                    assert(s[22] == '_');
                    assert(s[23] == 'i');
                    assert(s[24] == 't');
                    assert(s[25] == 'e');
                    assert(s[26] == 'm');
                    assert(s[28] == 'd');
                    assert(s[29] == 'e');
                    assert(s[30] == 'l');
                    assert(s[31] == 'e');
                    assert(s[32] == 't');
                    assert(s[33] == 'e');
                    assert(s[34] == 'd');
                }
                lemma_single_dot_at(s, 27);
                assert(s.subrange(0, 27) =~= "billing_statement_line_item"@);
                assert(s.subrange(28, s.len() as int) =~= "deleted"@);
                assert("billing_statement_line_item"@ != "billing_statement"@) by {
                    assert("billing_statement_line_item"@.len() == 27);
                    assert("billing_statement"@.len() == 17);
                }
                assert("deleted"@ != "created"@) by {
                    assert("deleted"@[0] == 'd');
                    assert("created"@[0] == 'c');
                }
                assert("deleted"@ != "updated"@) by {
                    assert("deleted"@[0] == 'd');
                    assert("updated"@[0] == 'u');
                }
            },
        },
        EventType::CheckoutSession(e) => match e {
            CheckoutSessionEvent::Expired => {
                reveal_strlit("checkout_session.expired");
                reveal_strlit("checkout_session");
                reveal_strlit("expired");
                reveal_strlit("billing_statement");
                reveal_strlit("billing_statement_line_item");
                let s = "checkout_session.expired"@;
                assert(spec_only_dot_at(s, 16)) by {
                    assert(s[0] == 'c');
                    assert(s[1] == 'h');
                    assert(s[2] == 'e');
                    assert(s[3] == 'c');
                    assert(s[4] == 'k');
                    assert(s[5] == 'o');
                    assert(s[6] == 'u');
                    assert(s[7] == 't');
                    assert(s[8] == '_');
                    assert(s[9] == 's');
                    assert(s[10] == 'e');
                    assert(s[11] == 's');
                    assert(s[12] == 's');
                    assert(s[13] == 'i');
                    assert(s[14] == 'o');
                    assert(s[15] == 'n');
                    assert(s[17] == 'e');
                    assert(s[18] == 'x');
                    assert(s[19] == 'p');
                    assert(s[20] == 'i');
                    assert(s[21] == 'r');
                    assert(s[22] == 'e');
                    assert(s[23] == 'd');
                }
                lemma_single_dot_at(s, 16);
                assert(s.subrange(0, 16) =~= "checkout_session"@);
                assert(s.subrange(17, s.len() as int) =~= "expired"@);
                assert("checkout_session"@ != "billing_statement"@) by {
                    assert("checkout_session"@.len() == 16);
                    assert("billing_statement"@.len() == 17);
                }
                assert("checkout_session"@ != "billing_statement_line_item"@) by {
                    assert("checkout_session"@.len() == 16);
                    assert("billing_statement_line_item"@.len() == 27);
                }
            },
        },
        EventType::PaymentIntent(e) => match e {
            PaymentIntentEvent::AwaitingCapture => {
                reveal_strlit("payment_intent.awaiting_capture");
                reveal_strlit("payment_intent");
                reveal_strlit("awaiting_capture");
                reveal_strlit("billing_statement");
                reveal_strlit("billing_statement_line_item");
                reveal_strlit("checkout_session");
                let s = "payment_intent.awaiting_capture"@;
                assert(spec_only_dot_at(s, 14)) by {
                    assert(s[0] == 'p');
                    assert(s[1] == 'a');
                    assert(s[2] == 'y');
                    assert(s[3] == 'm');
                    assert(s[4] == 'e');
                    assert(s[5] == 'n');
                    assert(s[6] == 't');
                    assert(s[7] == '_');
                    assert(s[8] == 'i');
                    assert(s[9] == 'n');
                    assert(s[10] == 't');
                    assert(s[11] == 'e');
                    assert(s[12] == 'n');
                    assert(s[13] == 't');
                    assert(s[15] == 'a');
                    assert(s[16] == 'w');
                    assert(s[17] == 'a');
                    assert(s[18] == 'i');
                    assert(s[19] == 't');
                    assert(s[20] == 'i');
                    assert(s[21] == 'n');
                    assert(s[22] == 'g');
                    assert(s[23] == '_');
                    assert(s[24] == 'c');
                    assert(s[25] == 'a');
                    assert(s[26] == 'p');
                    assert(s[27] == 't');
                    assert(s[28] == 'u');
                    assert(s[29] == 'r');
                    assert(s[30] == 'e');
                }
                lemma_single_dot_at(s, 14);
                assert(s.subrange(0, 14) =~= "payment_intent"@);
                assert(s.subrange(15, s.len() as int) =~= "awaiting_capture"@);
                assert("payment_intent"@ != "billing_statement"@) by {
                    assert("payment_intent"@.len() == 14);
                    assert("billing_statement"@.len() == 17);
                }
                assert("payment_intent"@ != "billing_statement_line_item"@) by {
                    assert("payment_intent"@.len() == 14);
                    assert("billing_statement_line_item"@.len() == 27);
                }
                assert("payment_intent"@ != "checkout_session"@) by {
                    assert("payment_intent"@.len() == 14);
                    assert("checkout_session"@.len() == 16);
                }
            },
            PaymentIntentEvent::Succeeded => {
                reveal_strlit("payment_intent.succeeded");
                reveal_strlit("payment_intent");
                reveal_strlit("succeeded");
                reveal_strlit("billing_statement");
                reveal_strlit("billing_statement_line_item");
                reveal_strlit("checkout_session");
                reveal_strlit("awaiting_capture");
                let s = "payment_intent.succeeded"@;
                assert(spec_only_dot_at(s, 14)) by {
                    assert(s[0] == 'p');
                    assert(s[1] == 'a');
                    assert(s[2] == 'y');
                    assert(s[3] == 'm');
                    assert(s[4] == 'e');
                    assert(s[5] == 'n');
                    assert(s[6] == 't');
                    assert(s[7] == '_');
                    assert(s[8] == 'i');
                    assert(s[9] == 'n');
                    assert(s[10] == 't');
                    assert(s[11] == 'e');
                    assert(s[12] == 'n');
                    assert(s[13] == 't');
                    assert(s[15] == 's');
                    assert(s[16] == 'u');
                    assert(s[17] == 'c');
                    assert(s[18] == 'c');
                    assert(s[19] == 'e');
                    assert(s[20] == 'e');
                    assert(s[21] == 'd');
                    assert(s[22] == 'e');
                    assert(s[23] == 'd');
                }
                lemma_single_dot_at(s, 14);
                assert(s.subrange(0, 14) =~= "payment_intent"@);
                assert(s.subrange(15, s.len() as int) =~= "succeeded"@);
                assert("payment_intent"@ != "billing_statement"@) by {
                    assert("payment_intent"@.len() == 14);
                    assert("billing_statement"@.len() == 17);
                }
                assert("payment_intent"@ != "billing_statement_line_item"@) by {
                    assert("payment_intent"@.len() == 14);
                    assert("billing_statement_line_item"@.len() == 27);
                }
                assert("payment_intent"@ != "checkout_session"@) by {
                    assert("payment_intent"@.len() == 14);
                    assert("checkout_session"@.len() == 16);
                }
                assert("succeeded"@ != "awaiting_capture"@) by {
                    assert("succeeded"@.len() == 9);
                    assert("awaiting_capture"@.len() == 16);
                }
            },
        },
        EventType::Payout(e) => match e {
            PayoutEvent::Deposited => {
                reveal_strlit("payout.deposited");
                reveal_strlit("payout");
                reveal_strlit("deposited");
                reveal_strlit("billing_statement");
                reveal_strlit("billing_statement_line_item");
                reveal_strlit("checkout_session");
                reveal_strlit("payment_intent");
                let s = "payout.deposited"@;
                assert(spec_only_dot_at(s, 6)) by {
                    assert(s[0] == 'p');
                    assert(s[1] == 'a');
                    assert(s[2] == 'y');
                    assert(s[3] == 'o');
                    assert(s[4] == 'u');
                    assert(s[5] == 't');
                    assert(s[7] == 'd');
                    assert(s[8] == 'e');
                    assert(s[9] == 'p');
                    assert(s[10] == 'o');
                    assert(s[11] == 's');
                    assert(s[12] == 'i');
                    assert(s[13] == 't');
                    assert(s[14] == 'e');
                    assert(s[15] == 'd');
                }
                lemma_single_dot_at(s, 6);
                assert(s.subrange(0, 6) =~= "payout"@);
                assert(s.subrange(7, s.len() as int) =~= "deposited"@);
                assert("payout"@ != "billing_statement"@) by {
                    assert("payout"@.len() == 6);
                    assert("billing_statement"@.len() == 17);
                }
                assert("payout"@ != "billing_statement_line_item"@) by {
                    assert("payout"@.len() == 6);
                    assert("billing_statement_line_item"@.len() == 27);
                }
                assert("payout"@ != "checkout_session"@) by {
                    assert("payout"@.len() == 6);
                    assert("checkout_session"@.len() == 16);
                }
                assert("payout"@ != "payment_intent"@) by {
                    assert("payout"@.len() == 6);
                    assert("payment_intent"@.len() == 14);
                }
            },
        },
        EventType::Refund(e) => match e {
            RefundEvent::Created => {
                reveal_strlit("refund.created");
                reveal_strlit("refund");
                reveal_strlit("created");
                reveal_strlit("billing_statement");
                reveal_strlit("billing_statement_line_item");
                reveal_strlit("checkout_session");
                reveal_strlit("payment_intent");
                reveal_strlit("payout");
                let s = "refund.created"@;
                assert(spec_only_dot_at(s, 6)) by {
                    assert(s[0] == 'r');
                    assert(s[1] == 'e');
                    assert(s[2] == 'f');
                    assert(s[3] == 'u');
                    assert(s[4] == 'n');
                    assert(s[5] == 'd');
                    assert(s[7] == 'c');
                    assert(s[8] == 'r');
                    assert(s[9] == 'e');
                    assert(s[10] == 'a');
                    assert(s[11] == 't');
                    assert(s[12] == 'e');
                    assert(s[13] == 'd');
                }
                lemma_single_dot_at(s, 6);
                assert(s.subrange(0, 6) =~= "refund"@);
                assert(s.subrange(7, s.len() as int) =~= "created"@);
                assert("refund"@ != "billing_statement"@) by {
                    assert("refund"@.len() == 6);
                    assert("billing_statement"@.len() == 17);
                }
                assert("refund"@ != "billing_statement_line_item"@) by {
                    assert("refund"@.len() == 6);
                    assert("billing_statement_line_item"@.len() == 27);
                }
                assert("refund"@ != "checkout_session"@) by {
                    assert("refund"@.len() == 6);
                    assert("checkout_session"@.len() == 16);
                }
                assert("refund"@ != "payment_intent"@) by {
                    assert("refund"@.len() == 6);
                    assert("payment_intent"@.len() == 14);
                }
                assert("refund"@ != "payout"@) by {
                    assert("refund"@[0] == 'r');
                    assert("payout"@[0] == 'p');
                }
            },
            RefundEvent::Updated => {
                reveal_strlit("refund.updated");
                reveal_strlit("refund");
                reveal_strlit("updated");
                reveal_strlit("billing_statement");
                reveal_strlit("billing_statement_line_item");
                reveal_strlit("checkout_session");
                reveal_strlit("payment_intent");
                reveal_strlit("payout");
                reveal_strlit("created");
                let s = "refund.updated"@;
                assert(spec_only_dot_at(s, 6)) by {
                    assert(s[0] == 'r');
                    assert(s[1] == 'e');
                    assert(s[2] == 'f');
                    assert(s[3] == 'u');
                    assert(s[4] == 'n');
                    assert(s[5] == 'd');
                    assert(s[7] == 'u');
                    assert(s[8] == 'p');
                    assert(s[9] == 'd');
                    assert(s[10] == 'a');
                    assert(s[11] == 't');
                    assert(s[12] == 'e');
                    assert(s[13] == 'd');
                }
                lemma_single_dot_at(s, 6);
                assert(s.subrange(0, 6) =~= "refund"@);
                assert(s.subrange(7, s.len() as int) =~= "updated"@);
                assert("refund"@ != "billing_statement"@) by {
                    assert("refund"@.len() == 6);
                    assert("billing_statement"@.len() == 17);
                }
                assert("refund"@ != "billing_statement_line_item"@) by {
                    assert("refund"@.len() == 6);
                    assert("billing_statement_line_item"@.len() == 27);
                }
                assert("refund"@ != "checkout_session"@) by {
                    assert("refund"@.len() == 6);
                    assert("checkout_session"@.len() == 16);
                }
                assert("refund"@ != "payment_intent"@) by {
                    assert("refund"@.len() == 6);
                    assert("payment_intent"@.len() == 14);
                }
                assert("refund"@ != "payout"@) by {
                    assert("refund"@[0] == 'r');
                    assert("payout"@[0] == 'p');
                }
                assert("updated"@ != "created"@) by {
                    assert("updated"@[0] == 'u');
                    assert("created"@[0] == 'c');
                }
            },
        },
    }
}

} // verus!
