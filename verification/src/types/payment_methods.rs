//! Payment methods, card options and capture methods.

use vstd::prelude::*;

verus! {

/// A payment method a payment intent may accept.
#[derive(Debug, Clone, Copy, PartialEq, Eq, Structural)]
pub enum PaymentMethod {
    /// Card payments.
    Card,
    /// GCash payments.
    GCash,
    /// Maya payments.
    Maya,
    /// QRPH payments.
    QRPh,
}

impl PaymentMethod {
    /// The wire name of this payment method.
    pub open spec fn spec_code(self) -> Seq<char> {
        match self {
            PaymentMethod::Card => "card"@,
            PaymentMethod::GCash => "gcash"@,
            PaymentMethod::Maya => "maya"@,
            PaymentMethod::QRPh => "qrph"@,
        }
    }

    /// The wire name of this payment method.
    pub fn as_str(self) -> (r: &'static str)
        ensures
            r@ == self.spec_code(),
    {
        match self {
            PaymentMethod::Card => "card",
            PaymentMethod::GCash => "gcash",
            PaymentMethod::Maya => "maya",
            PaymentMethod::QRPh => "qrph",
        }
    }
}

/// Options modifying the behavior of the payment method attached to a
/// payment intent.
#[derive(Debug, Clone, PartialEq, Eq)]
pub struct PaymentMethodOptions {
    /// Options for the card payment method.
    pub card: Option<CardOptions>,
}

/// Options for the card payment method.
#[derive(Debug, Clone, PartialEq, Eq)]
pub struct CardOptions {
    /// Whether the payment is captured automatically or held for manual
    /// capture.
    pub capture_type: Option<CaptureMethod>,
    /// The card BINs allowed for the payment.
    pub allowed_bins: Option<Vec<String>>,
    /// The card funding kinds allowed for the payment.
    pub allowed_funding: Option<Vec<String>>,
}

/// How a card payment is captured.
#[derive(Debug, Clone, Copy, PartialEq, Eq, Structural)]
pub enum CaptureMethod {
    /// The payment is captured automatically.
    Automatic,
    /// The payment is held and captured manually.
    Manual,
}

} // verus!
