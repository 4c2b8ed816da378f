//! Distances of any type that can be carried, with their order, and with the
//! subtraction of their type applied to what they hold.
use vstd::prelude::*;
use std::cmp::Ordering;
use opendp::error::{ErrorVariant, Fallible};
use crate::any::{AnyBoxClonePartialEq, Downcast};
use crate::erase::Erasable;
use crate::error::fails;
use crate::float::Order;
use crate::value::ValueView;

verus! {

/// The order of two distances in the terms of the standard library.
pub open spec fn ordering(order: Option<Order>) -> Option<Ordering> {
    match order {
        Some(Order::Less) => Some(Ordering::Less),
        Some(Order::Equal) => Some(Ordering::Equal),
        Some(Order::Greater) => Some(Ordering::Greater),
        None => None,
    }
}

fn to_ordering(order: Option<Order>) -> (r: Option<Ordering>)
    ensures
        r == ordering(order),
{
    match order {
        Some(Order::Less) => Some(Ordering::Less),
        Some(Order::Equal) => Some(Ordering::Equal),
        Some(Order::Greater) => Some(Ordering::Greater),
        None => None,
    }
}

/// A distance under a metric.
#[derive(Debug)]
pub struct AnyMetricDistance {
    pub(crate) distance: AnyBoxClonePartialEq,
}

/// A distance under a measure.
#[derive(Debug)]
pub struct AnyMeasureDistance {
    pub(crate) distance: AnyBoxClonePartialEq,
}

impl AnyMetricDistance {
    /// The value held.
    pub closed spec fn held(&self) -> ValueView {
        self.distance.held()
    }

    /// Equality of two distances: they are of one type, which finds them
    /// equal.
    pub open spec fn equals(&self, other: &Self) -> bool {
        self.held().same(other.held())
    }

    /// Erases a distance. Its duplication, equality and order go with it.
    pub fn new<Q: Erasable>(distance: Q) -> (r: Self)
        ensures
            r.held() == distance.erased(),
    {
        AnyMetricDistance { distance: AnyBoxClonePartialEq::new_clone_partial_eq(distance) }
    }
}

impl Downcast for AnyMetricDistance {
    open spec fn payload(&self) -> ValueView {
        self.held()
    }

    fn downcast<T: Erasable>(self) -> (r: Fallible<T>) {
        self.distance.downcast()
    }

    fn downcast_ref<T: Erasable>(&self) -> (r: Fallible<T>) {
        self.distance.downcast_ref()
    }
}

impl Clone for AnyMetricDistance {
    fn clone(&self) -> (r: Self)
        ensures
            r.held() == self.held(),
    {
        AnyMetricDistance { distance: self.distance.clone() }
    }
}

impl PartialEq for AnyMetricDistance {
    fn eq(&self, other: &Self) -> (r: bool) {
        self.distance == other.distance
    }
}

impl vstd::std_specs::cmp::PartialEqSpecImpl for AnyMetricDistance {
    open spec fn obeys_eq_spec() -> bool {
        true
    }

    open spec fn eq_spec(&self, other: &Self) -> bool {
        self.equals(other)
    }
}

impl PartialOrd for AnyMetricDistance {
    /// The order of two distances. A distance of another type is not ordered
    /// with this one.
    fn partial_cmp(&self, other: &Self) -> (r: Option<Ordering>) {
        to_ordering(self.distance.content().compare(other.distance.content()))
    }
}

impl vstd::std_specs::cmp::PartialOrdSpecImpl for AnyMetricDistance {
    open spec fn obeys_partial_cmp_spec() -> bool {
        true
    }

    open spec fn partial_cmp_spec(&self, other: &Self) -> Option<Ordering> {
        ordering(self.held().ordered(other.held()))
    }
}

/// Whether `r` is what subtracting one distance from another gives, both
/// taken as distances of type `Q`: a failed cast where the first is not of
/// that type, or else the second is not; else the difference that the
/// subtraction `native` gives for the two, carried, or its failure as it
/// stands.
pub open spec fn subtracts<Q: Erasable, F: Fn(Q, &Q) -> Fallible<Q>>(
    native: &F,
    left: ValueView,
    right: ValueView,
    r: Fallible<AnyMeasureDistance>,
) -> bool {
    if left.type_tag() != Q::type_tag() {
        fails(r, ErrorVariant::FailedCast, "Failed downcast of AnyBox to "@ + Q::type_tag().descriptor())
    } else if right.type_tag() != Q::type_tag() {
        fails(r, ErrorVariant::FailedCast, "Failed downcast_ref of AnyBox to "@ + Q::type_tag().descriptor())
    } else {
        exists|x: Q, y: Q, out: Fallible<Q>|
            x.erased() == left && y.erased() == right && #[trigger] (*native).ensures((x, &y), out)
                && difference(out, r)
    }
}

/// Whether `r` is the outcome `out` of a subtraction with its difference
/// carried.
pub open spec fn difference<Q: Erasable>(out: Fallible<Q>, r: Fallible<AnyMeasureDistance>) -> bool {
    match out {
        Ok(d) => r matches Ok(a) && a.held() == d.erased(),
        Err(e) => r == Err::<AnyMeasureDistance, _>(e),
    }
}

impl AnyMeasureDistance {
    /// The value held.
    pub closed spec fn held(&self) -> ValueView {
        self.distance.held()
    }

    /// Equality of two distances: they are of one type, which finds them
    /// equal.
    pub open spec fn equals(&self, other: &Self) -> bool {
        self.held().same(other.held())
    }

    /// Erases a distance. Its duplication, equality and order go with it;
    /// its subtraction is applied by `sub` to the distances that it
    /// recovers.
    pub fn new<Q: Erasable>(distance: Q) -> (r: Self)
        ensures
            r.held() == distance.erased(),
    {
        AnyMeasureDistance { distance: AnyBoxClonePartialEq::new_clone_partial_eq(distance) }
    }

    /// The distance less another. Both are asked for as distances of type
    /// `Q`, the subtraction of that type is applied to them, and the
    /// difference is carried.
    pub fn sub<Q: Erasable, F: Fn(Q, &Q) -> Fallible<Q>>(self, rhs: &Self, native: F) -> (r: Fallible<Self>)
        requires
            forall|x: Q, y: &Q| native.requires((x, y)),
        ensures
            subtracts::<Q, F>(&native, self.held(), rhs.held(), r),
    {
        let x: Q = match self.distance.downcast::<Q>() {
            Ok(x) => x,
            Err(e) => {
                return Err(e);
            },
        };
        let y: Q = match rhs.distance.downcast_ref::<Q>() {
            Ok(y) => y,
            Err(e) => {
                return Err(e);
            },
        };
        let ghost left = x;
        let out = native(x, &y);
        let r = match out {
            Ok(d) => Ok(AnyMeasureDistance::new(d)),
            Err(e) => Err(e),
        };
        assert((&native).ensures((left, &y), out) && difference(out, r));
        r
    }
}

impl Downcast for AnyMeasureDistance {
    open spec fn payload(&self) -> ValueView {
        self.held()
    }

    fn downcast<T: Erasable>(self) -> (r: Fallible<T>) {
        self.distance.downcast()
    }

    fn downcast_ref<T: Erasable>(&self) -> (r: Fallible<T>) {
        self.distance.downcast_ref()
    }
}

impl Clone for AnyMeasureDistance {
    fn clone(&self) -> (r: Self)
        ensures
            r.held() == self.held(),
    {
        AnyMeasureDistance { distance: self.distance.clone() }
    }
}

impl PartialEq for AnyMeasureDistance {
    fn eq(&self, other: &Self) -> (r: bool) {
        self.distance == other.distance
    }
}

impl vstd::std_specs::cmp::PartialEqSpecImpl for AnyMeasureDistance {
    open spec fn obeys_eq_spec() -> bool {
        true
    }

    open spec fn eq_spec(&self, other: &Self) -> bool {
        self.equals(other)
    }
}

impl PartialOrd for AnyMeasureDistance {
    /// The order of two distances. A distance of another type is not ordered
    /// with this one.
    fn partial_cmp(&self, other: &Self) -> (r: Option<Ordering>) {
        to_ordering(self.distance.content().compare(other.distance.content()))
    }
}

impl vstd::std_specs::cmp::PartialOrdSpecImpl for AnyMeasureDistance {
    open spec fn obeys_partial_cmp_spec() -> bool {
        true
    }

    open spec fn partial_cmp_spec(&self, other: &Self) -> Option<Ordering> {
        ordering(self.held().ordered(other.held()))
    }
}

} // verus!
