//! Types shared by every API resource.

use vstd::prelude::*;

verus! {

/// An API resource: a typed object with an identifier and a wire name.
pub trait Resource {
    /// The type of the resource's identifier.
    type Id;

    /// The identifier of this object.
    fn id(&self) -> &Self::Id;

    /// The wire name of the resource's object type.
    fn object_type() -> &'static str;
}

/// The object type tag carried by API resources.
#[derive(Debug, Clone, PartialEq, Eq, Structural)]
pub enum ObjectType {
    PaymentIntent,
    Customer,
    BillingStatement,
    BillingStatementLineItem,
    CheckoutSession,
    Payment,
    Refund,
    Webhook,
    Event,
    Payout,
    PayoutTransaction,
    List,
}

/// The acknowledgement returned when a resource is deleted.
#[derive(Debug, Clone, PartialEq, Eq)]
pub struct Deleted<Id> {
    pub id: Id,
    pub deleted: bool,
    pub object: String,
}

impl<Id> Deleted<Id> {
    /// The acknowledgement for the given object.
    pub fn new(id: Id, object: String) -> (r: Self)
        ensures
            r.id == id,
            r.deleted,
            r.object == object,
    {
        Deleted { id, deleted: true, object }
    }
}

/// A field the server may return either as a bare id or expanded into the
/// full object.
#[derive(Debug, Clone, PartialEq, Eq)]
pub enum Expandable<Id, T> {
    Id(Id),
    Object(Box<T>),
}

impl<Id, T> Expandable<Id, T> {
    /// Whether the field holds a bare id.
    pub fn is_id(&self) -> (r: bool)
        ensures
            r == (self matches Expandable::Id(_)),
    {
        match self {
            Expandable::Id(_) => true,
            Expandable::Object(_) => false,
        }
    }

    /// Whether the field holds the expanded object.
    pub fn is_object(&self) -> (r: bool)
        ensures
            r == (self matches Expandable::Object(_)),
    {
        match self {
            Expandable::Id(_) => false,
            Expandable::Object(_) => true,
        }
    }

    /// The bare id, when that is what the field holds.
    pub fn as_id(&self) -> (r: Option<&Id>)
        ensures
            match *self {
                Expandable::Id(ref id) => r == Some(id),
                Expandable::Object(_) => r is None,
            },
    {
        match self {
            Expandable::Id(id) => Some(id),
            Expandable::Object(_) => None,
        }
    }

    /// The expanded object, when that is what the field holds.
    pub fn as_object(&self) -> (r: Option<&T>)
        ensures
            match *self {
                Expandable::Id(_) => r is None,
                Expandable::Object(ref obj) => r matches Some(o) && o == &**obj,
            },
    {
        match self {
            Expandable::Id(_) => None,
            Expandable::Object(obj) => Some(&**obj),
        }
    }
}

/// A range filter over an ordered field.
#[derive(Debug, Clone, PartialEq, Eq)]
pub struct RangeQuery<T> {
    pub gt: Option<T>,
    pub gte: Option<T>,
    pub lt: Option<T>,
    pub lte: Option<T>,
}

impl<T> RangeQuery<T> {
    /// A filter with no bounds.
    pub fn new() -> (r: Self)
        ensures
            r.gt is None,
            r.gte is None,
            r.lt is None,
            r.lte is None,
    {
        RangeQuery { gt: None, gte: None, lt: None, lte: None }
    }

    /// Bounds the field strictly from below.
    pub fn gt(self, value: T) -> (r: Self)
        ensures
            r == (RangeQuery { gt: Some(value), ..self }),
    {
        RangeQuery { gt: Some(value), ..self }
    }

    /// Bounds the field inclusively from below.
    pub fn gte(self, value: T) -> (r: Self)
        ensures
            r == (RangeQuery { gte: Some(value), ..self }),
    {
        RangeQuery { gte: Some(value), ..self }
    }

    /// Bounds the field strictly from above.
    pub fn lt(self, value: T) -> (r: Self)
        ensures
            r == (RangeQuery { lt: Some(value), ..self }),
    {
        RangeQuery { lt: Some(value), ..self }
    }

    /// Bounds the field inclusively from above.
    pub fn lte(self, value: T) -> (r: Self)
        ensures
            r == (RangeQuery { lte: Some(value), ..self }),
    {
        RangeQuery { lte: Some(value), ..self }
    }
}

impl<T> Default for RangeQuery<T> {
    /// A filter with no bounds.
    fn default() -> (r: Self)
        ensures
            r.gt is None,
            r.gte is None,
            r.lt is None,
            r.lte is None,
    {
        RangeQuery::new()
    }
}

} // verus!
