//! Measurements and transformations: a function with the domains it maps
//! between, the metric or measure on either side, and the relation between
//! distances on the two sides.
use vstd::prelude::*;
use opendp::error::Fallible;
use crate::any::{AnyDomain, AnyMeasure, AnyMetric, AnyObject};
use crate::distance::{AnyMeasureDistance, AnyMetricDistance};
use crate::erase::Erasable;
use crate::function::{evaluates, evaluates_out, Function};
use crate::relation::{erases_map, erases_relation, PrivacyRelation, StabilityRelation};
use crate::traits::{Domain, Measure, Metric};
use crate::util::Type;
use crate::value::ValueView;

verus! {

/// Whether a carried domain holds values of the type with the given tag.
pub open spec fn carries(domain: &AnyDomain, carrier: Type) -> bool {
    domain.held() matches ValueView::Domain(d) && d.carrier() == carrier
}

/// A randomised mechanism. Where its parts are of concrete types, the function
/// maps between the carrier types of the two domains, and the relation holds
/// between distances of the metric and of the measure: the types of the
/// parts are fitted to each other once, where the measurement is made.
pub struct Measurement<DI, DO, F, MI, MO, R, B> {
    pub input_domain: DI,
    pub output_domain: DO,
    pub function: Function<F>,
    pub input_metric: MI,
    pub output_measure: MO,
    pub privacy_relation: PrivacyRelation<R, B>,
}

/// A transformation of data. Where its parts are of concrete types, the
/// function maps between the carrier types of the two domains, and the
/// relation holds between distances of the two metrics: the types of the
/// parts are fitted to each other once, where the transformation is made.
pub struct Transformation<DI, DO, F, MI, MO, R, FM, BM> {
    pub input_domain: DI,
    pub output_domain: DO,
    pub function: Function<F>,
    pub input_metric: MI,
    pub output_metric: MO,
    pub stability_relation: StabilityRelation<R, FM, BM>,
}

impl<DI, DO, F, MI, MO, R, B> Measurement<DI, DO, F, MI, MO, R, B> {
    /// A measurement of these parts.
    pub fn new(
        input_domain: DI,
        output_domain: DO,
        function: Function<F>,
        input_metric: MI,
        output_measure: MO,
        privacy_relation: PrivacyRelation<R, B>,
    ) -> (r: Self)
        ensures
            r.input_domain == input_domain,
            r.output_domain == output_domain,
            r.function == function,
            r.input_metric == input_metric,
            r.output_measure == output_measure,
            r.privacy_relation == privacy_relation,
    {
        Measurement { input_domain, output_domain, function, input_metric, output_measure, privacy_relation }
    }

    /// Applies the measurement's function.
    pub fn invoke<A, O>(&self, arg: &A) -> (r: Fallible<O>) where F: Fn(&A) -> Fallible<O>
        requires
            self.function.function.requires((arg,)),
        ensures
            self.function.function.ensures((arg,), r),
    {
        self.function.eval(arg)
    }

    /// Applies the measurement's relation.
    pub fn check<QI, QO>(&self, d_in: &QI, d_out: &QO) -> (r: Fallible<bool>) where
        R: Fn(&QI, &QO) -> Fallible<bool>,

        requires
            (*self.privacy_relation.relation).requires((d_in, d_out)),
        ensures
            (*self.privacy_relation.relation).ensures((d_in, d_out), r),
    {
        (self.privacy_relation.relation)(d_in, d_out)
    }
}

impl<DI: Domain, DO: Domain, F, MI: Metric, MO: Measure, R, B> Measurement<DI, DO, F, MI, MO, R, B> {
    /// Erases a measurement: its domains, metric and measure are carried,
    /// and its function and relation take and give carried values.
    pub fn into_any(self) -> (erased: Measurement<
        AnyDomain,
        AnyDomain,
        impl Fn(&AnyObject) -> Fallible<AnyObject>,
        AnyMetric,
        AnyMeasure,
        impl Fn(&AnyMetricDistance, &AnyMeasureDistance) -> Fallible<bool>,
        impl Fn(&AnyMeasureDistance) -> Fallible<Box<AnyMetricDistance>>,
    >) where
        F: Fn(&DI::Carrier) -> Fallible<DO::Carrier>,
        R: Fn(&MI::Distance, &MO::Distance) -> Fallible<bool>,
        B: Fn(&MO::Distance) -> Fallible<Box<MI::Distance>>,

        requires
            forall|x: &DI::Carrier| self.function.function.requires((x,)),
            forall|x: &MI::Distance, y: &MO::Distance| (*self.privacy_relation.relation).requires((x, y)),
            self.privacy_relation.backward_map matches Some(m) ==> forall|y: &MO::Distance| (*m).requires((y,)),
        ensures
            erased.input_domain.held() == self.input_domain.erased(),
            erased.output_domain.held() == self.output_domain.erased(),
            erased.input_metric.held() == self.input_metric.erased(),
            erased.output_measure.held() == self.output_measure.erased(),
            carries(&erased.input_domain, DI::Carrier::type_tag()),
            carries(&erased.output_domain, DO::Carrier::type_tag()),
            forall|arg: &AnyObject| erased.function.function.requires((arg,)),
            forall|arg: &AnyObject, r: Fallible<AnyObject>|
                #[trigger] erased.function.function.ensures((arg,), r) ==> evaluates::<DI::Carrier, DO::Carrier, F>(
                    &self.function.function,
                    arg.held(),
                    r,
                ),
            erases_relation::<MI::Distance, MO::Distance, AnyMetricDistance, AnyMeasureDistance, R, _>(
                &*erased.privacy_relation.relation,
                &*self.privacy_relation.relation,
            ),
            erased.privacy_relation.backward_map is Some == self.privacy_relation.backward_map is Some,
            erased.privacy_relation.backward_map matches Some(e) ==> erases_map::<
                MO::Distance,
                MI::Distance,
                AnyMeasureDistance,
                B,
                _,
            >(&*e, &*(self.privacy_relation.backward_map->Some_0)),
    {
        proof {
            self.input_domain.lemma_domain();
            self.output_domain.lemma_domain();
        }
        Measurement::new(
            AnyDomain::new(self.input_domain),
            AnyDomain::new(self.output_domain),
            self.function.into_any::<DI::Carrier, DO::Carrier>(),
            AnyMetric::new(self.input_metric),
            AnyMeasure::new(self.output_measure),
            self.privacy_relation.into_any::<MI::Distance, MO::Distance>(),
        )
    }
}

impl<DO: Domain, F, R, B> Measurement<AnyDomain, DO, F, AnyMetric, AnyMeasure, R, B> {
    /// Erases the output side of a measurement whose input side is erased
    /// already: the output domain is carried and the function gives carried
    /// values. The input side and the relation stay as they are.
    pub fn into_any_out(self) -> (erased: Measurement<
        AnyDomain,
        AnyDomain,
        impl Fn(&AnyObject) -> Fallible<AnyObject>,
        AnyMetric,
        AnyMeasure,
        R,
        B,
    >) where F: Fn(&AnyObject) -> Fallible<DO::Carrier>
        requires
            forall|arg: &AnyObject| self.function.function.requires((arg,)),
        ensures
            erased.input_domain == self.input_domain,
            erased.output_domain.held() == self.output_domain.erased(),
            carries(&erased.output_domain, DO::Carrier::type_tag()),
            erased.input_metric == self.input_metric,
            erased.output_measure == self.output_measure,
            erased.privacy_relation == self.privacy_relation,
            forall|arg: &AnyObject| erased.function.function.requires((arg,)),
            forall|arg: &AnyObject, r: Fallible<AnyObject>|
                #[trigger] erased.function.function.ensures((arg,), r) ==> evaluates_out::<DO::Carrier, F>(
                    &self.function.function,
                    arg,
                    r,
                ),
    {
        proof {
            self.output_domain.lemma_domain();
        }
        Measurement::new(
            self.input_domain,
            AnyDomain::new(self.output_domain),
            self.function.into_any_out::<DO::Carrier>(),
            self.input_metric,
            self.output_measure,
            self.privacy_relation,
        )
    }
}

impl<DI, DO, F, MI, MO, R, FM, BM> Transformation<DI, DO, F, MI, MO, R, FM, BM> {
    /// A transformation of these parts.
    pub fn new(
        input_domain: DI,
        output_domain: DO,
        function: Function<F>,
        input_metric: MI,
        output_metric: MO,
        stability_relation: StabilityRelation<R, FM, BM>,
    ) -> (r: Self)
        ensures
            r.input_domain == input_domain,
            r.output_domain == output_domain,
            r.function == function,
            r.input_metric == input_metric,
            r.output_metric == output_metric,
            r.stability_relation == stability_relation,
    {
        Transformation { input_domain, output_domain, function, input_metric, output_metric, stability_relation }
    }

    /// Applies the transformation's function.
    pub fn invoke<A, O>(&self, arg: &A) -> (r: Fallible<O>) where F: Fn(&A) -> Fallible<O>
        requires
            self.function.function.requires((arg,)),
        ensures
            self.function.function.ensures((arg,), r),
    {
        self.function.eval(arg)
    }

    /// Applies the transformation's relation.
    pub fn check<QI, QO>(&self, d_in: &QI, d_out: &QO) -> (r: Fallible<bool>) where
        R: Fn(&QI, &QO) -> Fallible<bool>,

        requires
            (*self.stability_relation.relation).requires((d_in, d_out)),
        ensures
            (*self.stability_relation.relation).ensures((d_in, d_out), r),
    {
        (self.stability_relation.relation)(d_in, d_out)
    }
}

impl<DI: Domain, DO: Domain, F, MI: Metric, MO: Metric, R, FM, BM> Transformation<DI, DO, F, MI, MO, R, FM, BM> {
    /// Erases a transformation: its domains and metrics are carried, and its
    /// function and relation take and give carried values.
    pub fn into_any(self) -> (erased: Transformation<
        AnyDomain,
        AnyDomain,
        impl Fn(&AnyObject) -> Fallible<AnyObject>,
        AnyMetric,
        AnyMetric,
        impl Fn(&AnyMetricDistance, &AnyMetricDistance) -> Fallible<bool>,
        impl Fn(&AnyMetricDistance) -> Fallible<Box<AnyMetricDistance>>,
        impl Fn(&AnyMetricDistance) -> Fallible<Box<AnyMetricDistance>>,
    >) where
        F: Fn(&DI::Carrier) -> Fallible<DO::Carrier>,
        R: Fn(&MI::Distance, &MO::Distance) -> Fallible<bool>,
        FM: Fn(&MI::Distance) -> Fallible<Box<MO::Distance>>,
        BM: Fn(&MO::Distance) -> Fallible<Box<MI::Distance>>,

        requires
            forall|x: &DI::Carrier| self.function.function.requires((x,)),
            forall|x: &MI::Distance, y: &MO::Distance| (*self.stability_relation.relation).requires((x, y)),
            self.stability_relation.forward_map matches Some(m) ==> forall|x: &MI::Distance| (*m).requires((x,)),
            self.stability_relation.backward_map matches Some(m) ==> forall|y: &MO::Distance|
                (*m).requires((y,)),
        ensures
            erased.input_domain.held() == self.input_domain.erased(),
            erased.output_domain.held() == self.output_domain.erased(),
            erased.input_metric.held() == self.input_metric.erased(),
            erased.output_metric.held() == self.output_metric.erased(),
            carries(&erased.input_domain, DI::Carrier::type_tag()),
            carries(&erased.output_domain, DO::Carrier::type_tag()),
            forall|arg: &AnyObject| erased.function.function.requires((arg,)),
            forall|arg: &AnyObject, r: Fallible<AnyObject>|
                #[trigger] erased.function.function.ensures((arg,), r) ==> evaluates::<DI::Carrier, DO::Carrier, F>(
                    &self.function.function,
                    arg.held(),
                    r,
                ),
            erases_relation::<MI::Distance, MO::Distance, AnyMetricDistance, AnyMetricDistance, R, _>(
                &*erased.stability_relation.relation,
                &*self.stability_relation.relation,
            ),
            erased.stability_relation.forward_map is Some == self.stability_relation.forward_map is Some,
            erased.stability_relation.forward_map matches Some(e) ==> erases_map::<
                MI::Distance,
                MO::Distance,
                AnyMetricDistance,
                FM,
                _,
            >(&*e, &*(self.stability_relation.forward_map->Some_0)),
            erased.stability_relation.backward_map is Some == self.stability_relation.backward_map is Some,
            erased.stability_relation.backward_map matches Some(e) ==> erases_map::<
                MO::Distance,
                MI::Distance,
                AnyMetricDistance,
                BM,
                _,
            >(&*e, &*(self.stability_relation.backward_map->Some_0)),
    {
        proof {
            self.input_domain.lemma_domain();
            self.output_domain.lemma_domain();
        }
        Transformation::new(
            AnyDomain::new(self.input_domain),
            AnyDomain::new(self.output_domain),
            self.function.into_any::<DI::Carrier, DO::Carrier>(),
            AnyMetric::new(self.input_metric),
            AnyMetric::new(self.output_metric),
            self.stability_relation.into_any::<MI::Distance, MO::Distance>(),
        )
    }
}

} // verus!
