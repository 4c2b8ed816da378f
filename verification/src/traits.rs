//! What the erasure layer asks of the domains, metrics and measures it
//! carries.
use vstd::prelude::*;
use crate::erase::Erasable;
use crate::value::ValueView;

verus! {

/// A set of values of one type.
pub trait Domain: Erasable {
    /// The type of the values.
    type Carrier: Erasable;

    /// The erased form is a domain over the carrier type.
    proof fn lemma_domain(&self)
        ensures
            self.erased() matches ValueView::Domain(d) && d.carrier() == Self::Carrier::type_tag(),
    ;
}

/// A way to tell how far apart two values are.
pub trait Metric: Erasable {
    /// The type of the distances.
    type Distance: Erasable;

    /// The erased form is a metric with distances of that type.
    proof fn lemma_metric(&self)
        ensures
            self.erased() matches ValueView::Metric(m) && m.distance() == Self::Distance::type_tag(),
    ;
}

/// A way to tell how far apart two distributions are.
pub trait Measure: Erasable {
    /// The type of the distances.
    type Distance: Erasable;

    /// The erased form is a measure with distances of that type.
    proof fn lemma_measure(&self)
        ensures
            self.erased() matches ValueView::Measure(m) && m.distance() == Self::Distance::type_tag(),
    ;
}

} // verus!
