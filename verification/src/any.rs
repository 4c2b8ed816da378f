//! Containers that own one value of a type their holder does not know, and
//! hand it back only to one who names that type.
use vstd::prelude::*;
use vstd::string::*;
use opendp::error::{Error, ErrorVariant, Fallible};
use crate::erase::Erasable;
use crate::error::{failed_cast, fails};
use crate::traits::{Domain, Measure, Metric};
use crate::util::{MeasureKind, MetricKind, Type};
use crate::value::{DomainValue, Value, ValueView};

verus! {

/// Whether `r` is what asking the payload for a `T` gives: the value whose
/// erased form the payload is, where the payload is of type `T`; else a failed
/// cast, whose message ends in the descriptor of `T`.
pub open spec fn recovers<T: Erasable>(payload: ValueView, r: Fallible<T>, context: Seq<char>) -> bool {
    if payload.type_tag() == T::type_tag() {
        r matches Ok(x) && x.erased() == payload
    } else {
        fails(r, ErrorVariant::FailedCast, context + T::type_tag().descriptor())
    }
}

/// Something that holds an erased value and gives it back as a concrete type.
pub trait Downcast {
    /// The value held.
    spec fn payload(&self) -> ValueView;

    /// Gives the value up as a `T`.
    fn downcast<T: Erasable>(self) -> (r: Fallible<T>)
        ensures
            recovers::<T>(self.payload(), r, "Failed downcast of AnyBox to "@),
    ;

    /// A copy of the value as a `T`; the holder keeps its own.
    fn downcast_ref<T: Erasable>(&self) -> (r: Fallible<T>)
        ensures
            recovers::<T>(self.payload(), r, "Failed downcast_ref of AnyBox to "@),
    ;
}

/// Whether `r` is what formatting the payload as a `T` gives: the text that
/// the formatting `native` of that type gives for the value whose erased form
/// the payload is; or a failed cast where the payload is not of type `T`.
pub open spec fn formats<T: Erasable, F: Fn(&T) -> String>(native: &F, payload: ValueView, r: Fallible<String>) -> bool {
    if payload.type_tag() == T::type_tag() {
        exists|x: T, text: String|
            x.erased() == payload && #[trigger] (*native).ensures((&x,), text) && r == Ok::<String, Error>(text)
    } else {
        fails(r, ErrorVariant::FailedCast, "Failed downcast_ref of AnyBox to "@ + T::type_tag().descriptor())
    }
}

/// A container of one erased value. The three parameters say which behaviours
/// of the value's type it offers: duplication, equality, formatting. The
/// first two go with the erased value; the third is applied by `format` to
/// the value that it recovers.
#[derive(Debug)]
pub struct AnyBoxBase<const CLONE: bool, const PARTIALEQ: bool, const DEBUG: bool> {
    pub(crate) value: Value,
}

/// A container without bound behaviours.
pub type AnyBox = AnyBoxBase<false, false, false>;

/// A container that can be duplicated and compared.
pub type AnyBoxClonePartialEq = AnyBoxBase<true, true, false>;

/// A container that can be duplicated, compared and formatted.
pub type AnyBoxClonePartialEqDebug = AnyBoxBase<true, true, true>;

impl<const CLONE: bool, const PARTIALEQ: bool, const DEBUG: bool> AnyBoxBase<CLONE, PARTIALEQ, DEBUG> {
    /// The value held.
    pub closed spec fn held(&self) -> ValueView {
        self.value@
    }

    /// Equality of the contents of two containers: they hold values of one
    /// type that this type finds equal.
    pub open spec fn equals(&self, other: &Self) -> bool {
        self.held().same(other.held())
    }

    /// The tag of the type of the value held.
    pub fn type_of(&self) -> (t: Type)
        ensures
            t == self.held().type_tag(),
    {
        self.value.type_of()
    }

    /// The value held, in its erased form.
    pub(crate) fn content(&self) -> (v: &Value)
        ensures
            v@ == self.held(),
    {
        &self.value
    }
}

impl<const CLONE: bool, const PARTIALEQ: bool, const DEBUG: bool> Downcast for AnyBoxBase<
    CLONE,
    PARTIALEQ,
    DEBUG,
> {
    open spec fn payload(&self) -> ValueView {
        self.held()
    }

    fn downcast<T: Erasable>(self) -> (r: Fallible<T>) {
        match T::recover(&self.value) {
            Some(x) => Ok(x),
            None => Err(failed_cast("Failed downcast of AnyBox to ", T::tag().to_string().as_str())),
        }
    }

    fn downcast_ref<T: Erasable>(&self) -> (r: Fallible<T>) {
        match T::recover(&self.value) {
            Some(x) => Ok(x),
            None => Err(failed_cast("Failed downcast_ref of AnyBox to ", T::tag().to_string().as_str())),
        }
    }
}

impl AnyBox {
    /// Erases a value; no behaviour is bound.
    pub fn new<T: Erasable>(value: T) -> (r: Self)
        ensures
            r.held() == value.erased(),
    {
        AnyBoxBase { value: value.erase() }
    }
}

impl AnyBoxClonePartialEq {
    /// Erases a value and binds its duplication and its equality.
    pub fn new_clone_partial_eq<T: Erasable>(value: T) -> (r: Self)
        ensures
            r.held() == value.erased(),
    {
        AnyBoxBase { value: value.erase() }
    }
}

impl AnyBoxClonePartialEqDebug {
    /// Erases a value into a container that offers its duplication, its
    /// equality and its formatting.
    pub fn new_clone_partial_eq_debug<T: Erasable>(value: T) -> (r: Self)
        ensures
            r.held() == value.erased(),
    {
        AnyBoxBase { value: value.erase() }
    }
}

impl<const PARTIALEQ: bool, const DEBUG: bool> Clone for AnyBoxBase<true, PARTIALEQ, DEBUG> {
    /// A second container that holds a copy of the value, with the same
    /// behaviours bound.
    fn clone(&self) -> (r: Self)
        ensures
            r.held() == self.held(),
    {
        AnyBoxBase { value: self.value.duplicate() }
    }
}

impl<const CLONE: bool, const DEBUG: bool> PartialEq for AnyBoxBase<CLONE, true, DEBUG> {
    fn eq(&self, other: &Self) -> (r: bool) {
        self.value.native_eq(&other.value)
    }
}

impl<const CLONE: bool, const DEBUG: bool> vstd::std_specs::cmp::PartialEqSpecImpl for AnyBoxBase<CLONE, true, DEBUG> {
    open spec fn obeys_eq_spec() -> bool {
        true
    }

    open spec fn eq_spec(&self, other: &Self) -> bool {
        self.equals(other)
    }
}

impl<const CLONE: bool, const PARTIALEQ: bool> AnyBoxBase<CLONE, PARTIALEQ, true> {
    /// The text for the value held. The value is asked for as a `T`, and the
    /// formatting of that type is applied to it.
    pub fn format<T: Erasable, F: Fn(&T) -> String>(&self, native: F) -> (r: Fallible<String>)
        requires
            forall|x: &T| native.requires((x,)),
        ensures
            formats::<T, F>(&native, self.held(), r),
    {
        let x: T = match self.downcast_ref::<T>() {
            Ok(x) => x,
            Err(e) => {
                return Err(e);
            },
        };
        let text = native(&x);
        assert((&native).ensures((&x,), text));
        Ok(text)
    }
}

/// A value of any type that can be carried, with the tag of its type.
#[derive(Debug)]
pub struct AnyObject {
    pub(crate) type_: Type,
    pub(crate) value: AnyBox,
}

impl AnyObject {
    /// The tag is that of the value held.
    #[verifier::type_invariant]
    pub closed spec fn tagged(&self) -> bool {
        self.type_ == self.value.held().type_tag()
    }

    /// The value held.
    pub closed spec fn held(&self) -> ValueView {
        self.value.held()
    }

    /// Erases a value and tags it with its type.
    pub fn new<T: Erasable>(value: T) -> (r: Self)
        ensures
            r.held() == value.erased(),
    {
        proof {
            value.lemma_erased_tag();
        }
        AnyObject { type_: T::tag(), value: AnyBox::new(value) }
    }

    /// The tag of the type of the value held.
    pub fn type_of(&self) -> (t: Type)
        ensures
            t == self.held().type_tag(),
    {
        proof {
            use_type_invariant(self);
        }
        self.type_
    }

    /// The value held, in its erased form.
    pub(crate) fn content(&self) -> (v: &Value)
        ensures
            v@ == self.held(),
    {
        self.value.content()
    }
}

impl Downcast for AnyObject {
    open spec fn payload(&self) -> ValueView {
        self.held()
    }

    fn downcast<T: Erasable>(self) -> (r: Fallible<T>) {
        self.value.downcast()
    }

    fn downcast_ref<T: Erasable>(&self) -> (r: Fallible<T>) {
        self.value.downcast_ref()
    }
}

/// Whether `r` is what the membership test of a domain of type `D` gives for a
/// value: a failed cast where the domain held is not of type `D`, or else the
/// value is not of the carrier type of `D`; else what the membership test
/// `native` of that type gives for the two.
pub open spec fn membership<D: Domain, F: Fn(&D, &D::Carrier) -> Fallible<bool>>(
    native: &F,
    domain: ValueView,
    val: ValueView,
    r: Fallible<bool>,
) -> bool {
    if domain.type_tag() != D::type_tag() {
        fails(r, ErrorVariant::FailedCast, "Failed downcast_ref of AnyBox to "@ + D::type_tag().descriptor())
    } else if val.type_tag() != <D::Carrier>::type_tag() {
        fails(
            r,
            ErrorVariant::FailedCast,
            "Failed downcast_ref of AnyBox to "@ + <D::Carrier>::type_tag().descriptor(),
        )
    } else {
        exists|d: D, v: D::Carrier|
            d.erased() == domain && v.erased() == val && #[trigger] (*native).ensures((&d, &v), r)
    }
}

/// A domain of any type that can be carried, with the tag of the type of its
/// values.
#[derive(Debug)]
pub struct AnyDomain {
    pub(crate) carrier_type: Type,
    pub(crate) domain: AnyBoxClonePartialEqDebug,
}

impl AnyDomain {
    /// The container holds a domain, and the tag is that of its carrier type.
    #[verifier::type_invariant]
    pub closed spec fn tagged(&self) -> bool {
        self.domain.held() matches ValueView::Domain(d) && self.carrier_type == d.carrier()
    }

    /// The value held.
    pub closed spec fn held(&self) -> ValueView {
        self.domain.held()
    }

    /// The domain held.
    pub open spec fn descriptor(&self) -> DomainValue {
        self.held()->Domain_0
    }

    /// Equality of two carriers: their domains are of one type and equal.
    pub open spec fn equals(&self, other: &Self) -> bool {
        self.held().same(other.held())
    }

    /// Erases a domain. Its duplication and its equality go with it; its
    /// membership test and its formatting are applied by `member` and
    /// `format` to the domain that they recover.
    pub fn new<D: Domain>(domain: D) -> (r: Self)
        ensures
            r.held() == domain.erased(),
            r.held() is Domain,
    {
        proof {
            domain.lemma_domain();
        }
        AnyDomain {
            carrier_type: <D::Carrier>::tag(),
            domain: AnyBoxClonePartialEqDebug::new_clone_partial_eq_debug(domain),
        }
    }

    /// The tag of the type of the domain's values.
    pub fn carrier_type(&self) -> (t: Type)
        ensures
            self.held() is Domain,
            t == self.descriptor().carrier(),
    {
        proof {
            use_type_invariant(self);
        }
        self.carrier_type
    }

    /// Whether a carried value is a member of the domain. The domain is
    /// asked for as a `D`, then the value as the carrier type of `D`, and the
    /// membership test of that type is applied to the two.
    pub fn member<D: Domain, F: Fn(&D, &D::Carrier) -> Fallible<bool>>(&self, val: &AnyObject, native: F) -> (r:
        Fallible<bool>)
        requires
            forall|d: &D, v: &D::Carrier| native.requires((d, v)),
        ensures
            membership::<D, F>(&native, self.held(), val.held(), r),
    {
        let d: D = match self.downcast_ref::<D>() {
            Ok(d) => d,
            Err(e) => {
                return Err(e);
            },
        };
        let v: D::Carrier = match val.downcast_ref::<D::Carrier>() {
            Ok(v) => v,
            Err(e) => {
                return Err(e);
            },
        };
        let r = native(&d, &v);
        assert((&native).ensures((&d, &v), r));
        r
    }

    /// The text for the domain held. The domain is asked for as a `D`, and
    /// the formatting of that type is applied to it.
    pub fn format<D: Domain, F: Fn(&D) -> String>(&self, native: F) -> (r: Fallible<String>)
        requires
            forall|d: &D| native.requires((d,)),
        ensures
            formats::<D, F>(&native, self.held(), r),
    {
        self.domain.format::<D, F>(native)
    }
}

impl Downcast for AnyDomain {
    open spec fn payload(&self) -> ValueView {
        self.held()
    }

    fn downcast<T: Erasable>(self) -> (r: Fallible<T>) {
        self.domain.downcast()
    }

    fn downcast_ref<T: Erasable>(&self) -> (r: Fallible<T>) {
        self.domain.downcast_ref()
    }
}

impl Clone for AnyDomain {
    fn clone(&self) -> (r: Self)
        ensures
            r.held() == self.held(),
    {
        proof {
            use_type_invariant(self);
        }
        AnyDomain { carrier_type: self.carrier_type, domain: self.domain.clone() }
    }
}

impl PartialEq for AnyDomain {
    fn eq(&self, other: &Self) -> (r: bool) {
        proof {
            use_type_invariant(self);
            use_type_invariant(other);
            if self.equals(other) {
                lemma_same_is_typed(self.held(), other.held());
            }
        }
        self.carrier_type == other.carrier_type && self.domain == other.domain
    }
}

impl vstd::std_specs::cmp::PartialEqSpecImpl for AnyDomain {
    open spec fn obeys_eq_spec() -> bool {
        true
    }

    open spec fn eq_spec(&self, other: &Self) -> bool {
        self.equals(other)
    }
}

/// A metric of any type that can be carried, with the tag of the type of its
/// distances.
#[derive(Debug)]
pub struct AnyMetric {
    pub(crate) metric: AnyBoxClonePartialEqDebug,
    pub(crate) distance_type: Type,
}

impl AnyMetric {
    /// The container holds a metric, and the tag is that of its distances.
    #[verifier::type_invariant]
    pub closed spec fn tagged(&self) -> bool {
        self.metric.held() matches ValueView::Metric(m) && self.distance_type == m.distance()
    }

    /// The value held.
    pub closed spec fn held(&self) -> ValueView {
        self.metric.held()
    }

    /// The metric held.
    pub open spec fn descriptor(&self) -> MetricKind {
        self.held()->Metric_0
    }

    /// Equality of two carriers: their metrics are of one type.
    pub open spec fn equals(&self, other: &Self) -> bool {
        self.held().same(other.held())
    }

    /// Erases a metric. Its duplication and its equality go with it; its
    /// formatting is applied by `format` to the metric that it recovers.
    pub fn new<M: Metric>(metric: M) -> (r: Self)
        ensures
            r.held() == metric.erased(),
            r.held() is Metric,
    {
        proof {
            metric.lemma_metric();
        }
        AnyMetric {
            metric: AnyBoxClonePartialEqDebug::new_clone_partial_eq_debug(metric),
            distance_type: <M::Distance>::tag(),
        }
    }

    /// The tag of the type of the metric's distances.
    pub fn distance_type(&self) -> (t: Type)
        ensures
            self.held() is Metric,
            t == self.descriptor().distance(),
    {
        proof {
            use_type_invariant(self);
        }
        self.distance_type
    }

    /// The text for the metric held. The metric is asked for as an `M`, and
    /// the formatting of that type is applied to it.
    pub fn format<M: Metric, F: Fn(&M) -> String>(&self, native: F) -> (r: Fallible<String>)
        requires
            forall|m: &M| native.requires((m,)),
        ensures
            formats::<M, F>(&native, self.held(), r),
    {
        self.metric.format::<M, F>(native)
    }
}

impl Downcast for AnyMetric {
    open spec fn payload(&self) -> ValueView {
        self.held()
    }

    fn downcast<T: Erasable>(self) -> (r: Fallible<T>) {
        self.metric.downcast()
    }

    fn downcast_ref<T: Erasable>(&self) -> (r: Fallible<T>) {
        self.metric.downcast_ref()
    }
}

impl Clone for AnyMetric {
    fn clone(&self) -> (r: Self)
        ensures
            r.held() == self.held(),
    {
        proof {
            use_type_invariant(self);
        }
        AnyMetric { metric: self.metric.clone(), distance_type: self.distance_type }
    }
}

impl PartialEq for AnyMetric {
    fn eq(&self, other: &Self) -> (r: bool) {
        proof {
            use_type_invariant(self);
            use_type_invariant(other);
        }
        self.metric == other.metric && self.distance_type == other.distance_type
    }
}

impl vstd::std_specs::cmp::PartialEqSpecImpl for AnyMetric {
    open spec fn obeys_eq_spec() -> bool {
        true
    }

    open spec fn eq_spec(&self, other: &Self) -> bool {
        self.equals(other)
    }
}

/// A measure of any type that can be carried, with the tag of the type of its
/// distances.
#[derive(Debug)]
pub struct AnyMeasure {
    pub(crate) measure: AnyBoxClonePartialEqDebug,
    pub(crate) distance_type: Type,
}

impl AnyMeasure {
    /// The container holds a measure, and the tag is that of its distances.
    #[verifier::type_invariant]
    pub closed spec fn tagged(&self) -> bool {
        self.measure.held() matches ValueView::Measure(m) && self.distance_type == m.distance()
    }

    /// The value held.
    pub closed spec fn held(&self) -> ValueView {
        self.measure.held()
    }

    /// The measure held.
    pub open spec fn descriptor(&self) -> MeasureKind {
        self.held()->Measure_0
    }

    /// Equality of two carriers: their measures are of one type.
    pub open spec fn equals(&self, other: &Self) -> bool {
        self.held().same(other.held())
    }

    /// Erases a measure. Its duplication and its equality go with it; its
    /// formatting is applied by `format` to the measure that it recovers.
    pub fn new<M: Measure>(measure: M) -> (r: Self)
        ensures
            r.held() == measure.erased(),
            r.held() is Measure,
    {
        proof {
            measure.lemma_measure();
        }
        AnyMeasure {
            measure: AnyBoxClonePartialEqDebug::new_clone_partial_eq_debug(measure),
            distance_type: <M::Distance>::tag(),
        }
    }

    /// The tag of the type of the measure's distances.
    pub fn distance_type(&self) -> (t: Type)
        ensures
            self.held() is Measure,
            t == self.descriptor().distance(),
    {
        proof {
            use_type_invariant(self);
        }
        self.distance_type
    }

    /// The text for the measure held. The measure is asked for as an `M`,
    /// and the formatting of that type is applied to it.
    pub fn format<M: Measure, F: Fn(&M) -> String>(&self, native: F) -> (r: Fallible<String>)
        requires
            forall|m: &M| native.requires((m,)),
        ensures
            formats::<M, F>(&native, self.held(), r),
    {
        self.measure.format::<M, F>(native)
    }
}

impl Downcast for AnyMeasure {
    open spec fn payload(&self) -> ValueView {
        self.held()
    }

    fn downcast<T: Erasable>(self) -> (r: Fallible<T>) {
        self.measure.downcast()
    }

    fn downcast_ref<T: Erasable>(&self) -> (r: Fallible<T>) {
        self.measure.downcast_ref()
    }
}

impl Clone for AnyMeasure {
    fn clone(&self) -> (r: Self)
        ensures
            r.held() == self.held(),
    {
        proof {
            use_type_invariant(self);
        }
        AnyMeasure { measure: self.measure.clone(), distance_type: self.distance_type }
    }
}

impl PartialEq for AnyMeasure {
    fn eq(&self, other: &Self) -> (r: bool) {
        proof {
            use_type_invariant(self);
            use_type_invariant(other);
        }
        self.measure == other.measure && self.distance_type == other.distance_type
    }
}

impl vstd::std_specs::cmp::PartialEqSpecImpl for AnyMeasure {
    open spec fn obeys_eq_spec() -> bool {
        true
    }

    open spec fn eq_spec(&self, other: &Self) -> bool {
        self.equals(other)
    }
}

/// Values that their types find equal are of one type.
pub proof fn lemma_same_is_typed(a: ValueView, b: ValueView)
    requires
        a.same(b),
    ensures
        a.type_tag() == b.type_tag(),
{
}

/// What was erased is recovered: asked for as the type it was erased from, a
/// container gives back the value that was erased. The two have one erased
/// form, which the type's equality finds equal to itself wherever that
/// equality is reflexive.
pub proof fn law_round_trip<T: Erasable>(value: T, held: ValueView, recovered: Fallible<T>, context: Seq<char>)
    requires
        held == value.erased(),
        recovers::<T>(held, recovered, context),
    ensures
        recovered matches Ok(x) && x.alike(&value) && x.erased() == value.erased() && (
        value.erased().reflexive() ==> x.erased().same(value.erased())),
{
    value.lemma_erased_tag();
    recovered->Ok_0.lemma_erased_injective(&value);
}

/// A cast to another type fails: asked for as a type other than the one it
/// was erased from, a container gives a failed cast and no value.
pub proof fn law_cast_safety<A: Erasable, B: Erasable>(
    value: A,
    held: ValueView,
    recovered: Fallible<B>,
    context: Seq<char>,
)
    requires
        held == value.erased(),
        A::type_tag() != B::type_tag(),
        recovers::<B>(held, recovered, context),
    ensures
        recovered matches Err(e) && e.variant == ErrorVariant::FailedCast,
{
    value.lemma_erased_tag();
}

/// Containers erased from values of different types are not equal.
pub proof fn law_cross_type_equality<A: Erasable, B: Erasable, const C: bool, const D: bool>(
    a: A,
    b: B,
    left: AnyBoxBase<C, true, D>,
    right: AnyBoxBase<C, true, D>,
)
    requires
        left.held() == a.erased(),
        right.held() == b.erased(),
        A::type_tag() != B::type_tag(),
    ensures
        !left.equals(&right),
{
    a.lemma_erased_tag();
    b.lemma_erased_tag();
    if left.equals(&right) {
        lemma_same_is_typed(left.held(), right.held());
    }
}

/// A duplicate equals the container it was made from wherever the equality of the value's type
/// is reflexive on the value.
pub proof fn law_duplicate_fidelity<const P: bool, const D: bool>(
    container: AnyBoxBase<true, P, D>,
    duplicate: AnyBoxBase<true, P, D>,
)
    requires
        duplicate.held() == container.held(),
        container.held().reflexive(),
    ensures
        container.equals(&duplicate),
        duplicate.equals(&container),
{
}

/// Carried domains of one domain fit together: erased from two domains that
/// their type finds equal, the carriers are equal, so that composing what
/// gives the one with what takes the other is not refused for its domains.
pub proof fn law_domains_fit<D: Domain>(given: D, taken: D, output: AnyDomain, input: AnyDomain)
    requires
        output.held() == given.erased(),
        input.held() == taken.erased(),
        given.erased().same(taken.erased()),
    ensures
        output.equals(&input),
        input.equals(&output),
{
    given.lemma_domain();
    taken.lemma_domain();
}

/// Carried domains of different types do not fit together: the carriers are
/// unequal, so that composing what gives the one with what takes the other is
/// refused when the two are compared, before any function is applied.
pub proof fn law_domains_of_different_types_do_not_fit<D1: Domain, D2: Domain>(
    given: D1,
    taken: D2,
    output: AnyDomain,
    input: AnyDomain,
)
    requires
        output.held() == given.erased(),
        input.held() == taken.erased(),
        D1::type_tag() != D2::type_tag(),
    ensures
        !output.equals(&input),
{
    given.lemma_erased_tag();
    taken.lemma_erased_tag();
    if output.equals(&input) {
        lemma_same_is_typed(output.held(), input.held());
    }
}

/// Carried domains over different carrier types do not fit together: where
/// what gives values of one type is composed with what takes values of
/// another, the carriers of the two domains are unequal.
pub proof fn law_carrier_types_must_match<D1: Domain, D2: Domain>(
    given: D1,
    taken: D2,
    output: AnyDomain,
    input: AnyDomain,
)
    requires
        output.held() == given.erased(),
        input.held() == taken.erased(),
        <D1::Carrier>::type_tag() != <D2::Carrier>::type_tag(),
    ensures
        !output.equals(&input),
{
    given.lemma_domain();
    taken.lemma_domain();
    if output.equals(&input) {
        lemma_same_is_typed(output.held(), input.held());
    }
}

/// Carried metrics of different types do not fit together: the carriers are
/// unequal, so that composing over them is refused when the two are compared.
pub proof fn law_metrics_of_different_types_do_not_fit<M1: Metric, M2: Metric>(
    given: M1,
    taken: M2,
    output: AnyMetric,
    input: AnyMetric,
)
    requires
        output.held() == given.erased(),
        input.held() == taken.erased(),
        M1::type_tag() != M2::type_tag(),
    ensures
        !output.equals(&input),
{
    given.lemma_erased_tag();
    taken.lemma_erased_tag();
    if output.equals(&input) {
        lemma_same_is_typed(output.held(), input.held());
    }
}

} // verus!
