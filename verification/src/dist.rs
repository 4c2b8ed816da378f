//! The metrics and measures that can be carried.
use vstd::prelude::*;
use std::marker::PhantomData;
use opendp::dist::IntDistance;
use crate::erase::{Erasable, Primitive};
use crate::traits::{Measure, Metric};
use crate::util::{MeasureKind, MetricKind, Type};
use crate::value::{Value, ValueView};

verus! {

/// The number of records by which two data sets differ, added or removed.
#[derive(Debug)]
pub struct SymmetricDistance;

/// The number of records by which two data sets differ, exchanged.
#[derive(Debug)]
pub struct SubstituteDistance;

/// The absolute difference of two numbers of type `Q`.
#[derive(Debug)]
pub struct AbsoluteDistance<Q> {
    _marker: PhantomData<Q>,
}

/// The sum of the absolute differences of the elements of two vectors.
#[derive(Debug)]
pub struct L1Distance<Q> {
    _marker: PhantomData<Q>,
}

/// The root of the sum of the squared differences of the elements of two
/// vectors.
#[derive(Debug)]
pub struct L2Distance<Q> {
    _marker: PhantomData<Q>,
}

/// The greatest divergence of two distributions, as one number of type `Q`.
#[derive(Debug)]
pub struct MaxDivergence<Q> {
    _marker: PhantomData<Q>,
}

/// The greatest divergence of two distributions but for a small
/// probability, as two numbers of type `Q`.
#[derive(Debug)]
pub struct SmoothedMaxDivergence<Q> {
    _marker: PhantomData<Q>,
}

impl Default for SymmetricDistance {
    fn default() -> (r: Self)
        ensures
            r.erased() == ValueView::Metric(MetricKind::Symmetric),
    {
        SymmetricDistance
    }
}

impl Default for SubstituteDistance {
    fn default() -> (r: Self)
        ensures
            r.erased() == ValueView::Metric(MetricKind::Substitute),
    {
        SubstituteDistance
    }
}

impl<Q: Primitive> Default for AbsoluteDistance<Q> {
    fn default() -> (r: Self)
        ensures
            r.erased() == ValueView::Metric(MetricKind::Absolute(Q::atom())),
    {
        AbsoluteDistance { _marker: PhantomData }
    }
}

impl<Q: Primitive> Default for L1Distance<Q> {
    fn default() -> (r: Self)
        ensures
            r.erased() == ValueView::Metric(MetricKind::L1(Q::atom())),
    {
        L1Distance { _marker: PhantomData }
    }
}

impl<Q: Primitive> Default for L2Distance<Q> {
    fn default() -> (r: Self)
        ensures
            r.erased() == ValueView::Metric(MetricKind::L2(Q::atom())),
    {
        L2Distance { _marker: PhantomData }
    }
}

impl<Q: Primitive> Default for MaxDivergence<Q> {
    fn default() -> (r: Self)
        ensures
            r.erased() == ValueView::Measure(MeasureKind::MaxDivergence(Q::atom())),
    {
        MaxDivergence { _marker: PhantomData }
    }
}

impl<Q: Primitive> Default for SmoothedMaxDivergence<Q> {
    fn default() -> (r: Self)
        ensures
            r.erased() == ValueView::Measure(MeasureKind::SmoothedMaxDivergence(Q::atom())),
    {
        SmoothedMaxDivergence { _marker: PhantomData }
    }
}

impl Erasable for SymmetricDistance {
    open spec fn type_tag() -> Type {
        Type::Metric(MetricKind::Symmetric)
    }

    open spec fn erased(&self) -> ValueView {
        ValueView::Metric(MetricKind::Symmetric)
    }

    open spec fn alike(&self, other: &Self) -> bool {
        true
    }

    proof fn lemma_erased_injective(&self, other: &Self) {
    }

    proof fn lemma_erased_tag(&self) {
    }

    fn tag() -> (t: Type) {
        Type::Metric(MetricKind::Symmetric)
    }

    fn erase(self) -> (v: Value) {
        Value::Metric(MetricKind::Symmetric)
    }

    fn recover(v: &Value) -> (r: Option<Self>) {
        match v {
            Value::Metric(MetricKind::Symmetric) => Some(SymmetricDistance),
            _ => None,
        }
    }
}

impl Erasable for SubstituteDistance {
    open spec fn type_tag() -> Type {
        Type::Metric(MetricKind::Substitute)
    }

    open spec fn erased(&self) -> ValueView {
        ValueView::Metric(MetricKind::Substitute)
    }

    open spec fn alike(&self, other: &Self) -> bool {
        true
    }

    proof fn lemma_erased_injective(&self, other: &Self) {
    }

    proof fn lemma_erased_tag(&self) {
    }

    fn tag() -> (t: Type) {
        Type::Metric(MetricKind::Substitute)
    }

    fn erase(self) -> (v: Value) {
        Value::Metric(MetricKind::Substitute)
    }

    fn recover(v: &Value) -> (r: Option<Self>) {
        match v {
            Value::Metric(MetricKind::Substitute) => Some(SubstituteDistance),
            _ => None,
        }
    }
}

impl<Q: Primitive> Erasable for AbsoluteDistance<Q> {
    open spec fn type_tag() -> Type {
        Type::Metric(MetricKind::Absolute(Q::atom()))
    }

    open spec fn erased(&self) -> ValueView {
        ValueView::Metric(MetricKind::Absolute(Q::atom()))
    }

    open spec fn alike(&self, other: &Self) -> bool {
        true
    }

    proof fn lemma_erased_injective(&self, other: &Self) {
    }

    proof fn lemma_erased_tag(&self) {
    }

    fn tag() -> (t: Type) {
        Type::Metric(MetricKind::Absolute(Q::atom_of()))
    }

    fn erase(self) -> (v: Value) {
        Value::Metric(MetricKind::Absolute(Q::atom_of()))
    }

    fn recover(v: &Value) -> (r: Option<Self>) {
        match v {
            Value::Metric(MetricKind::Absolute(a)) => if *a == Q::atom_of() {
                Some(AbsoluteDistance { _marker: PhantomData })
            } else {
                None
            },
            _ => None,
        }
    }
}

impl<Q: Primitive> Erasable for L1Distance<Q> {
    open spec fn type_tag() -> Type {
        Type::Metric(MetricKind::L1(Q::atom()))
    }

    open spec fn erased(&self) -> ValueView {
        ValueView::Metric(MetricKind::L1(Q::atom()))
    }

    open spec fn alike(&self, other: &Self) -> bool {
        true
    }

    proof fn lemma_erased_injective(&self, other: &Self) {
    }

    proof fn lemma_erased_tag(&self) {
    }

    fn tag() -> (t: Type) {
        Type::Metric(MetricKind::L1(Q::atom_of()))
    }

    fn erase(self) -> (v: Value) {
        Value::Metric(MetricKind::L1(Q::atom_of()))
    }

    fn recover(v: &Value) -> (r: Option<Self>) {
        match v {
            Value::Metric(MetricKind::L1(a)) => if *a == Q::atom_of() {
                Some(L1Distance { _marker: PhantomData })
            } else {
                None
            },
            _ => None,
        }
    }
}

impl<Q: Primitive> Erasable for L2Distance<Q> {
    open spec fn type_tag() -> Type {
        Type::Metric(MetricKind::L2(Q::atom()))
    }

    open spec fn erased(&self) -> ValueView {
        ValueView::Metric(MetricKind::L2(Q::atom()))
    }

    open spec fn alike(&self, other: &Self) -> bool {
        true
    }

    proof fn lemma_erased_injective(&self, other: &Self) {
    }

    proof fn lemma_erased_tag(&self) {
    }

    fn tag() -> (t: Type) {
        Type::Metric(MetricKind::L2(Q::atom_of()))
    }

    fn erase(self) -> (v: Value) {
        Value::Metric(MetricKind::L2(Q::atom_of()))
    }

    fn recover(v: &Value) -> (r: Option<Self>) {
        match v {
            Value::Metric(MetricKind::L2(a)) => if *a == Q::atom_of() {
                Some(L2Distance { _marker: PhantomData })
            } else {
                None
            },
            _ => None,
        }
    }
}

impl<Q: Primitive> Erasable for MaxDivergence<Q> {
    open spec fn type_tag() -> Type {
        Type::Measure(MeasureKind::MaxDivergence(Q::atom()))
    }

    open spec fn erased(&self) -> ValueView {
        ValueView::Measure(MeasureKind::MaxDivergence(Q::atom()))
    }

    open spec fn alike(&self, other: &Self) -> bool {
        true
    }

    proof fn lemma_erased_injective(&self, other: &Self) {
    }

    proof fn lemma_erased_tag(&self) {
    }

    fn tag() -> (t: Type) {
        Type::Measure(MeasureKind::MaxDivergence(Q::atom_of()))
    }

    fn erase(self) -> (v: Value) {
        Value::Measure(MeasureKind::MaxDivergence(Q::atom_of()))
    }

    fn recover(v: &Value) -> (r: Option<Self>) {
        match v {
            Value::Measure(MeasureKind::MaxDivergence(a)) => if *a == Q::atom_of() {
                Some(MaxDivergence { _marker: PhantomData })
            } else {
                None
            },
            _ => None,
        }
    }
}

impl<Q: Primitive> Erasable for SmoothedMaxDivergence<Q> {
    open spec fn type_tag() -> Type {
        Type::Measure(MeasureKind::SmoothedMaxDivergence(Q::atom()))
    }

    open spec fn erased(&self) -> ValueView {
        ValueView::Measure(MeasureKind::SmoothedMaxDivergence(Q::atom()))
    }

    open spec fn alike(&self, other: &Self) -> bool {
        true
    }

    proof fn lemma_erased_injective(&self, other: &Self) {
    }

    proof fn lemma_erased_tag(&self) {
    }

    fn tag() -> (t: Type) {
        Type::Measure(MeasureKind::SmoothedMaxDivergence(Q::atom_of()))
    }

    fn erase(self) -> (v: Value) {
        Value::Measure(MeasureKind::SmoothedMaxDivergence(Q::atom_of()))
    }

    fn recover(v: &Value) -> (r: Option<Self>) {
        match v {
            Value::Measure(MeasureKind::SmoothedMaxDivergence(a)) => if *a == Q::atom_of() {
                Some(SmoothedMaxDivergence { _marker: PhantomData })
            } else {
                None
            },
            _ => None,
        }
    }
}

impl Metric for SymmetricDistance {
    type Distance = IntDistance;

    proof fn lemma_metric(&self) {
    }
}

impl Metric for SubstituteDistance {
    type Distance = IntDistance;

    proof fn lemma_metric(&self) {
    }
}

impl<Q: Primitive> Metric for AbsoluteDistance<Q> {
    type Distance = Q;

    proof fn lemma_metric(&self) {
    }
}

impl<Q: Primitive> Metric for L1Distance<Q> {
    type Distance = Q;

    proof fn lemma_metric(&self) {
    }
}

impl<Q: Primitive> Metric for L2Distance<Q> {
    type Distance = Q;

    proof fn lemma_metric(&self) {
    }
}

impl<Q: Primitive> Measure for MaxDivergence<Q> {
    type Distance = Q;

    proof fn lemma_measure(&self) {
    }
}

impl<Q: Primitive> Measure for SmoothedMaxDivergence<Q> {
    type Distance = (Q, Q);

    proof fn lemma_measure(&self) {
    }
}

impl Clone for SymmetricDistance {
    fn clone(&self) -> (r: Self)
        ensures
            r.erased() == self.erased(),
    {
        SymmetricDistance
    }
}

impl PartialEq for SymmetricDistance {
    fn eq(&self, other: &Self) -> (r: bool) {
        true
    }
}

impl vstd::std_specs::cmp::PartialEqSpecImpl for SymmetricDistance {
    open spec fn obeys_eq_spec() -> bool {
        true
    }

    open spec fn eq_spec(&self, other: &Self) -> bool {
        self.erased().same(other.erased())
    }
}

impl Clone for SubstituteDistance {
    fn clone(&self) -> (r: Self)
        ensures
            r.erased() == self.erased(),
    {
        SubstituteDistance
    }
}

impl PartialEq for SubstituteDistance {
    fn eq(&self, other: &Self) -> (r: bool) {
        true
    }
}

impl vstd::std_specs::cmp::PartialEqSpecImpl for SubstituteDistance {
    open spec fn obeys_eq_spec() -> bool {
        true
    }

    open spec fn eq_spec(&self, other: &Self) -> bool {
        self.erased().same(other.erased())
    }
}

impl<Q: Primitive> Clone for AbsoluteDistance<Q> {
    fn clone(&self) -> (r: Self)
        ensures
            r.erased() == self.erased(),
    {
        AbsoluteDistance { _marker: PhantomData }
    }
}

impl<Q: Primitive> PartialEq for AbsoluteDistance<Q> {
    fn eq(&self, other: &Self) -> (r: bool) {
        true
    }
}

impl<Q: Primitive> vstd::std_specs::cmp::PartialEqSpecImpl for AbsoluteDistance<Q> {
    open spec fn obeys_eq_spec() -> bool {
        true
    }

    open spec fn eq_spec(&self, other: &Self) -> bool {
        self.erased().same(other.erased())
    }
}

impl<Q: Primitive> Clone for L1Distance<Q> {
    fn clone(&self) -> (r: Self)
        ensures
            r.erased() == self.erased(),
    {
        L1Distance { _marker: PhantomData }
    }
}

impl<Q: Primitive> PartialEq for L1Distance<Q> {
    fn eq(&self, other: &Self) -> (r: bool) {
        true
    }
}

impl<Q: Primitive> vstd::std_specs::cmp::PartialEqSpecImpl for L1Distance<Q> {
    open spec fn obeys_eq_spec() -> bool {
        true
    }

    open spec fn eq_spec(&self, other: &Self) -> bool {
        self.erased().same(other.erased())
    }
}

impl<Q: Primitive> Clone for L2Distance<Q> {
    fn clone(&self) -> (r: Self)
        ensures
            r.erased() == self.erased(),
    {
        L2Distance { _marker: PhantomData }
    }
}

impl<Q: Primitive> PartialEq for L2Distance<Q> {
    fn eq(&self, other: &Self) -> (r: bool) {
        true
    }
}

impl<Q: Primitive> vstd::std_specs::cmp::PartialEqSpecImpl for L2Distance<Q> {
    open spec fn obeys_eq_spec() -> bool {
        true
    }

    open spec fn eq_spec(&self, other: &Self) -> bool {
        self.erased().same(other.erased())
    }
}

impl<Q: Primitive> Clone for MaxDivergence<Q> {
    fn clone(&self) -> (r: Self)
        ensures
            r.erased() == self.erased(),
    {
        MaxDivergence { _marker: PhantomData }
    }
}

impl<Q: Primitive> PartialEq for MaxDivergence<Q> {
    fn eq(&self, other: &Self) -> (r: bool) {
        true
    }
}

impl<Q: Primitive> vstd::std_specs::cmp::PartialEqSpecImpl for MaxDivergence<Q> {
    open spec fn obeys_eq_spec() -> bool {
        true
    }

    open spec fn eq_spec(&self, other: &Self) -> bool {
        self.erased().same(other.erased())
    }
}

impl<Q: Primitive> Clone for SmoothedMaxDivergence<Q> {
    fn clone(&self) -> (r: Self)
        ensures
            r.erased() == self.erased(),
    {
        SmoothedMaxDivergence { _marker: PhantomData }
    }
}

impl<Q: Primitive> PartialEq for SmoothedMaxDivergence<Q> {
    fn eq(&self, other: &Self) -> (r: bool) {
        true
    }
}

impl<Q: Primitive> vstd::std_specs::cmp::PartialEqSpecImpl for SmoothedMaxDivergence<Q> {
    open spec fn obeys_eq_spec() -> bool {
        true
    }

    open spec fn eq_spec(&self, other: &Self) -> bool {
        self.erased().same(other.erased())
    }
}

} // verus!
