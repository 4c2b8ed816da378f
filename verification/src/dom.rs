//! The domains that can be carried.
use vstd::prelude::*;
use std::collections::HashMap;
use std::marker::PhantomData;
use opendp::data::Column;
use opendp::error::{ErrorVariant, Fallible};
use crate::erase::{Erasable, Primitive};
use crate::error::{fails, failure};
use crate::float::Order;
use crate::traits::Domain;
use crate::util::{Atom, DomainKind, Type};
use crate::value::{DomainValue, Value, ValueView};

verus! {

/// The domain of all values of `T` that are not null.
#[derive(Debug)]
pub struct AllDomain<T> {
    _marker: PhantomData<T>,
}

/// The domain of the values of `T` between two bounds, both included.
#[derive(Debug)]
pub struct BoundedDomain<T> {
    lower: T,
    upper: T,
}

/// The domain of the vectors all of whose elements lie in one domain.
#[derive(Debug)]
pub struct VectorDomain<D> {
    pub element_domain: D,
}

/// The domain of the vectors of a given number of elements that lie in one
/// domain of vectors.
#[derive(Debug)]
pub struct SizedDomain<D> {
    pub element_domain: D,
    pub size: usize,
}

/// The domain of the values of a domain and of the null value of their type.
#[derive(Debug)]
pub struct InherentNullDomain<D> {
    pub element_domain: D,
}

/// The domain of the data frames whose columns stand under names of type `K`.
#[derive(Debug)]
pub struct DataFrameDomain<K> {
    _marker: PhantomData<K>,
}

impl<D> SizedDomain<D> {
    /// The domain of the vectors of `size` elements that lie in
    /// `member_domain`.
    pub fn new(member_domain: D, size: usize) -> (r: Self)
        ensures
            r.element_domain == member_domain,
            r.size == size,
    {
        SizedDomain { element_domain: member_domain, size }
    }
}

impl<D> InherentNullDomain<D> {
    /// The domain of the values of `element_domain` and of the null value.
    pub fn new(element_domain: D) -> (r: Self)
        ensures
            r.element_domain == element_domain,
    {
        InherentNullDomain { element_domain }
    }
}

impl<K> DataFrameDomain<K> {
    /// The domain of all data frames with names of type `K`.
    pub fn new() -> (r: Self) {
        DataFrameDomain { _marker: PhantomData }
    }
}

impl<T> AllDomain<T> {
    /// The domain of all values of `T`.
    pub fn new() -> (r: Self) {
        AllDomain { _marker: PhantomData }
    }
}

impl<T: Primitive> BoundedDomain<T> {
    /// The bounds, lower then upper.
    pub closed spec fn bounds(&self) -> (T, T) {
        (self.lower, self.upper)
    }

    /// The domain between two bounds. Bounds of which the lower is greater
    /// than the upper are refused.
    pub fn new_closed(bounds: (T, T)) -> (r: Fallible<Self>)
        ensures
            match r {
                Ok(d) => d.bounds() == bounds && bounds.0.scalar().ordered(bounds.1.scalar()) != Some(
                    Order::Greater,
                ),
                Err(e) => fails(
                    r,
                    ErrorVariant::MakeTransformation,
                    "lower bound may not be greater than upper bound"@,
                ) && bounds.0.scalar().ordered(bounds.1.scalar()) == Some(Order::Greater),
            },
    {
        match bounds.0.into_scalar().compare(&bounds.1.into_scalar()) {
            Some(Order::Greater) => Err(
                failure(ErrorVariant::MakeTransformation, "lower bound may not be greater than upper bound"),
            ),
            _ => Ok(BoundedDomain { lower: bounds.0, upper: bounds.1 }),
        }
    }
}

impl<D> VectorDomain<D> {
    /// The domain of the vectors of elements of `element_domain`.
    pub fn new(element_domain: D) -> (r: Self)
        ensures
            r.element_domain == element_domain,
    {
        VectorDomain { element_domain }
    }
}

impl<T: Primitive> Erasable for AllDomain<T> {
    open spec fn type_tag() -> Type {
        Type::Domain(DomainKind::All, T::atom())
    }

    open spec fn erased(&self) -> ValueView {
        ValueView::Domain(DomainValue::All(T::atom()))
    }

    open spec fn alike(&self, other: &Self) -> bool {
        true
    }

    proof fn lemma_erased_injective(&self, other: &Self) {
    }

    proof fn lemma_erased_tag(&self) {
    }

    fn tag() -> (t: Type) {
        Type::Domain(DomainKind::All, T::atom_of())
    }

    fn erase(self) -> (v: Value) {
        Value::Domain(DomainValue::All(T::atom_of()))
    }

    fn recover(v: &Value) -> (r: Option<Self>) {
        match v {
            Value::Domain(DomainValue::All(a)) => if *a == T::atom_of() {
                Some(AllDomain { _marker: PhantomData })
            } else {
                None
            },
            _ => None,
        }
    }
}

impl<T: Primitive> Erasable for BoundedDomain<T> {
    open spec fn type_tag() -> Type {
        Type::Domain(DomainKind::Bounded, T::atom())
    }

    open spec fn erased(&self) -> ValueView {
        ValueView::Domain(DomainValue::Bounded(T::pair(self.bounds())))
    }

    open spec fn alike(&self, other: &Self) -> bool {
        self.bounds() == other.bounds()
    }

    proof fn lemma_erased_injective(&self, other: &Self) {
        T::lemma_pair(self.bounds());
        T::lemma_pair(other.bounds());
        self.bounds().0.lemma_scalar_injective(other.bounds().0);
        self.bounds().1.lemma_scalar_injective(other.bounds().1);
    }

    proof fn lemma_erased_tag(&self) {
        T::lemma_pair(self.bounds());
        self.bounds().0.lemma_scalar_atom();
    }

    fn tag() -> (t: Type) {
        Type::Domain(DomainKind::Bounded, T::atom_of())
    }

    fn erase(self) -> (v: Value) {
        Value::Domain(DomainValue::Bounded(T::into_pair((self.lower, self.upper))))
    }

    fn recover(v: &Value) -> (r: Option<Self>) {
        match v {
            Value::Domain(DomainValue::Bounded(p)) => match T::from_pair(p) {
                Some(bounds) => Some(BoundedDomain { lower: bounds.0, upper: bounds.1 }),
                None => None,
            },
            _ => None,
        }
    }
}

impl<T: Primitive> Erasable for VectorDomain<AllDomain<T>> {
    open spec fn type_tag() -> Type {
        Type::Domain(DomainKind::VectorAll, T::atom())
    }

    open spec fn erased(&self) -> ValueView {
        ValueView::Domain(DomainValue::VectorAll(T::atom()))
    }

    open spec fn alike(&self, other: &Self) -> bool {
        true
    }

    proof fn lemma_erased_injective(&self, other: &Self) {
    }

    proof fn lemma_erased_tag(&self) {
    }

    fn tag() -> (t: Type) {
        Type::Domain(DomainKind::VectorAll, T::atom_of())
    }

    fn erase(self) -> (v: Value) {
        Value::Domain(DomainValue::VectorAll(T::atom_of()))
    }

    fn recover(v: &Value) -> (r: Option<Self>) {
        match v {
            Value::Domain(DomainValue::VectorAll(a)) => if *a == T::atom_of() {
                Some(VectorDomain { element_domain: AllDomain { _marker: PhantomData } })
            } else {
                None
            },
            _ => None,
        }
    }
}

impl<T: Primitive> Erasable for VectorDomain<BoundedDomain<T>> {
    open spec fn type_tag() -> Type {
        Type::Domain(DomainKind::VectorBounded, T::atom())
    }

    open spec fn erased(&self) -> ValueView {
        ValueView::Domain(DomainValue::VectorBounded(T::pair(self.element_domain.bounds())))
    }

    open spec fn alike(&self, other: &Self) -> bool {
        self.element_domain.bounds() == other.element_domain.bounds()
    }

    proof fn lemma_erased_injective(&self, other: &Self) {
        T::lemma_pair(self.element_domain.bounds());
        T::lemma_pair(other.element_domain.bounds());
        self.element_domain.bounds().0.lemma_scalar_injective(other.element_domain.bounds().0);
        self.element_domain.bounds().1.lemma_scalar_injective(other.element_domain.bounds().1);
    }

    proof fn lemma_erased_tag(&self) {
        T::lemma_pair(self.element_domain.bounds());
        self.element_domain.bounds().0.lemma_scalar_atom();
    }

    fn tag() -> (t: Type) {
        Type::Domain(DomainKind::VectorBounded, T::atom_of())
    }

    fn erase(self) -> (v: Value) {
        Value::Domain(
            DomainValue::VectorBounded(T::into_pair((self.element_domain.lower, self.element_domain.upper))),
        )
    }

    fn recover(v: &Value) -> (r: Option<Self>) {
        match v {
            Value::Domain(DomainValue::VectorBounded(p)) => match T::from_pair(p) {
                Some(bounds) => Some(
                    VectorDomain { element_domain: BoundedDomain { lower: bounds.0, upper: bounds.1 } },
                ),
                None => None,
            },
            _ => None,
        }
    }
}

impl<T: Primitive> Domain for AllDomain<T> {
    type Carrier = T;

    proof fn lemma_domain(&self) {
    }
}

impl<T: Primitive> Domain for BoundedDomain<T> {
    type Carrier = T;

    proof fn lemma_domain(&self) {
        self.lemma_erased_tag();
    }
}

impl<T: Primitive> Domain for VectorDomain<AllDomain<T>> {
    type Carrier = Vec<T>;

    proof fn lemma_domain(&self) {
    }
}

impl<T: Primitive> Domain for VectorDomain<BoundedDomain<T>> {
    type Carrier = Vec<T>;

    proof fn lemma_domain(&self) {
        self.lemma_erased_tag();
    }
}

impl<T: Primitive> Clone for AllDomain<T> {
    fn clone(&self) -> (r: Self)
        ensures
            r.erased() == self.erased(),
    {
        AllDomain { _marker: PhantomData }
    }
}

impl<T: Primitive> Clone for BoundedDomain<T> {
    fn clone(&self) -> (r: Self)
        ensures
            r.erased() == self.erased(),
    {
        BoundedDomain { lower: self.lower, upper: self.upper }
    }
}

impl<T: Primitive> Clone for VectorDomain<AllDomain<T>> {
    fn clone(&self) -> (r: Self)
        ensures
            r.erased() == self.erased(),
    {
        VectorDomain { element_domain: self.element_domain.clone() }
    }
}

impl<T: Primitive> Clone for VectorDomain<BoundedDomain<T>> {
    fn clone(&self) -> (r: Self)
        ensures
            r.erased() == self.erased(),
    {
        VectorDomain { element_domain: self.element_domain.clone() }
    }
}

impl<T: Primitive> PartialEq for AllDomain<T> {
    fn eq(&self, other: &Self) -> (r: bool) {
        true
    }
}

impl<T: Primitive> vstd::std_specs::cmp::PartialEqSpecImpl for AllDomain<T> {
    open spec fn obeys_eq_spec() -> bool {
        true
    }

    open spec fn eq_spec(&self, other: &Self) -> bool {
        self.erased().same(other.erased())
    }
}

impl<T: Primitive> PartialEq for BoundedDomain<T> {
    fn eq(&self, other: &Self) -> (r: bool) {
        proof {
            T::lemma_pair(self.bounds());
            T::lemma_pair(other.bounds());
        }
        self.lower.into_scalar().native_eq(&other.lower.into_scalar()) && self.upper.into_scalar().native_eq(
            &other.upper.into_scalar(),
        )
    }
}

impl<T: Primitive> vstd::std_specs::cmp::PartialEqSpecImpl for BoundedDomain<T> {
    open spec fn obeys_eq_spec() -> bool {
        true
    }

    open spec fn eq_spec(&self, other: &Self) -> bool {
        self.erased().same(other.erased())
    }
}

impl<T: Primitive> PartialEq for VectorDomain<AllDomain<T>> {
    fn eq(&self, other: &Self) -> (r: bool) {
        true
    }
}

impl<T: Primitive> vstd::std_specs::cmp::PartialEqSpecImpl for VectorDomain<AllDomain<T>> {
    open spec fn obeys_eq_spec() -> bool {
        true
    }

    open spec fn eq_spec(&self, other: &Self) -> bool {
        self.erased().same(other.erased())
    }
}

impl<T: Primitive> PartialEq for VectorDomain<BoundedDomain<T>> {
    fn eq(&self, other: &Self) -> (r: bool) {
        proof {
            T::lemma_pair(self.element_domain.bounds());
            T::lemma_pair(other.element_domain.bounds());
        }
        self.element_domain.lower.into_scalar().native_eq(&other.element_domain.lower.into_scalar())
            && self.element_domain.upper.into_scalar().native_eq(&other.element_domain.upper.into_scalar())
    }
}

impl<T: Primitive> vstd::std_specs::cmp::PartialEqSpecImpl for VectorDomain<BoundedDomain<T>> {
    open spec fn obeys_eq_spec() -> bool {
        true
    }

    open spec fn eq_spec(&self, other: &Self) -> bool {
        self.erased().same(other.erased())
    }
}

impl Erasable for AllDomain<String> {
    open spec fn type_tag() -> Type {
        Type::Domain(DomainKind::All, Atom::String)
    }

    open spec fn erased(&self) -> ValueView {
        ValueView::Domain(DomainValue::All(Atom::String))
    }

    open spec fn alike(&self, other: &Self) -> bool {
        true
    }

    proof fn lemma_erased_injective(&self, other: &Self) {
    }

    proof fn lemma_erased_tag(&self) {
    }

    fn tag() -> (t: Type) {
        Type::Domain(DomainKind::All, Atom::String)
    }

    fn erase(self) -> (v: Value) {
        Value::Domain(DomainValue::All(Atom::String))
    }

    fn recover(v: &Value) -> (r: Option<Self>) {
        match v {
            Value::Domain(DomainValue::All(Atom::String)) => Some(AllDomain { _marker: PhantomData }),
            _ => None,
        }
    }
}

impl Domain for AllDomain<String> {
    type Carrier = String;

    proof fn lemma_domain(&self) {
    }
}

impl Clone for AllDomain<String> {
    fn clone(&self) -> (r: Self)
        ensures
            r.erased() == self.erased(),
    {
        AllDomain { _marker: PhantomData }
    }
}

impl PartialEq for AllDomain<String> {
    fn eq(&self, other: &Self) -> (r: bool) {
        true
    }
}

impl vstd::std_specs::cmp::PartialEqSpecImpl for AllDomain<String> {
    open spec fn obeys_eq_spec() -> bool {
        true
    }

    open spec fn eq_spec(&self, other: &Self) -> bool {
        self.erased().same(other.erased())
    }
}

impl Erasable for VectorDomain<AllDomain<String>> {
    open spec fn type_tag() -> Type {
        Type::Domain(DomainKind::VectorAll, Atom::String)
    }

    open spec fn erased(&self) -> ValueView {
        ValueView::Domain(DomainValue::VectorAll(Atom::String))
    }

    open spec fn alike(&self, other: &Self) -> bool {
        true
    }

    proof fn lemma_erased_injective(&self, other: &Self) {
    }

    proof fn lemma_erased_tag(&self) {
    }

    fn tag() -> (t: Type) {
        Type::Domain(DomainKind::VectorAll, Atom::String)
    }

    fn erase(self) -> (v: Value) {
        Value::Domain(DomainValue::VectorAll(Atom::String))
    }

    fn recover(v: &Value) -> (r: Option<Self>) {
        match v {
            Value::Domain(DomainValue::VectorAll(Atom::String)) => Some(VectorDomain { element_domain: AllDomain { _marker: PhantomData } }),
            _ => None,
        }
    }
}

impl Domain for VectorDomain<AllDomain<String>> {
    type Carrier = Vec<String>;

    proof fn lemma_domain(&self) {
    }
}

impl Clone for VectorDomain<AllDomain<String>> {
    fn clone(&self) -> (r: Self)
        ensures
            r.erased() == self.erased(),
    {
        VectorDomain { element_domain: AllDomain { _marker: PhantomData } }
    }
}

impl PartialEq for VectorDomain<AllDomain<String>> {
    fn eq(&self, other: &Self) -> (r: bool) {
        true
    }
}

impl vstd::std_specs::cmp::PartialEqSpecImpl for VectorDomain<AllDomain<String>> {
    open spec fn obeys_eq_spec() -> bool {
        true
    }

    open spec fn eq_spec(&self, other: &Self) -> bool {
        self.erased().same(other.erased())
    }
}

impl<T: Primitive> Erasable for SizedDomain<VectorDomain<AllDomain<T>>> {
    open spec fn type_tag() -> Type {
        Type::Domain(DomainKind::SizedVectorAll, T::atom())
    }

    open spec fn erased(&self) -> ValueView {
        ValueView::Domain(DomainValue::SizedVectorAll(T::atom(), self.size))
    }

    open spec fn alike(&self, other: &Self) -> bool {
        self.size == other.size
    }

    proof fn lemma_erased_injective(&self, other: &Self) {
    }

    proof fn lemma_erased_tag(&self) {
    }

    fn tag() -> (t: Type) {
        Type::Domain(DomainKind::SizedVectorAll, T::atom_of())
    }

    fn erase(self) -> (v: Value) {
        Value::Domain(DomainValue::SizedVectorAll(T::atom_of(), self.size))
    }

    fn recover(v: &Value) -> (r: Option<Self>) {
        match v {
            Value::Domain(DomainValue::SizedVectorAll(a, size)) => if *a == T::atom_of() {
                Some(SizedDomain { element_domain: VectorDomain { element_domain: AllDomain { _marker: PhantomData } }, size: *size })
            } else {
                None
            },
            _ => None,
        }
    }
}

impl<T: Primitive> Domain for SizedDomain<VectorDomain<AllDomain<T>>> {
    type Carrier = Vec<T>;

    proof fn lemma_domain(&self) {
    }
}

impl<T: Primitive> Clone for SizedDomain<VectorDomain<AllDomain<T>>> {
    fn clone(&self) -> (r: Self)
        ensures
            r.erased() == self.erased(),
    {
        SizedDomain { element_domain: self.element_domain.clone(), size: self.size }
    }
}

impl<T: Primitive> PartialEq for SizedDomain<VectorDomain<AllDomain<T>>> {
    fn eq(&self, other: &Self) -> (r: bool) {
        self.size == other.size
    }
}

impl<T: Primitive> vstd::std_specs::cmp::PartialEqSpecImpl for SizedDomain<VectorDomain<AllDomain<T>>> {
    open spec fn obeys_eq_spec() -> bool {
        true
    }

    open spec fn eq_spec(&self, other: &Self) -> bool {
        self.erased().same(other.erased())
    }
}

impl<T: Primitive> Erasable for SizedDomain<VectorDomain<BoundedDomain<T>>> {
    open spec fn type_tag() -> Type {
        Type::Domain(DomainKind::SizedVectorBounded, T::atom())
    }

    open spec fn erased(&self) -> ValueView {
        ValueView::Domain(DomainValue::SizedVectorBounded(T::pair(self.element_domain.element_domain.bounds()), self.size))
    }

    open spec fn alike(&self, other: &Self) -> bool {
        self.element_domain.element_domain.bounds() == other.element_domain.element_domain.bounds() && self.size == other.size
    }

    proof fn lemma_erased_injective(&self, other: &Self) {
        T::lemma_pair(self.element_domain.element_domain.bounds());
        T::lemma_pair(other.element_domain.element_domain.bounds());
        self.element_domain.element_domain.bounds().0.lemma_scalar_injective(
            other.element_domain.element_domain.bounds().0,
        );
        self.element_domain.element_domain.bounds().1.lemma_scalar_injective(
            other.element_domain.element_domain.bounds().1,
        );
    }

    proof fn lemma_erased_tag(&self) {
        T::lemma_pair(self.element_domain.element_domain.bounds());
        self.element_domain.element_domain.bounds().0.lemma_scalar_atom();
    }

    fn tag() -> (t: Type) {
        Type::Domain(DomainKind::SizedVectorBounded, T::atom_of())
    }

    fn erase(self) -> (v: Value) {
        Value::Domain(DomainValue::SizedVectorBounded(
                T::into_pair((self.element_domain.element_domain.lower, self.element_domain.element_domain.upper)),
                self.size,
            ))
    }

    fn recover(v: &Value) -> (r: Option<Self>) {
        match v {
            Value::Domain(DomainValue::SizedVectorBounded(p, size)) => match T::from_pair(p) {
                Some(bounds) => Some(
                    SizedDomain {
                        element_domain: VectorDomain {
                            element_domain: BoundedDomain { lower: bounds.0, upper: bounds.1 },
                        },
                        size: *size,
                    },
                ),
                None => None,
            },
            _ => None,
        }
    }
}

impl<T: Primitive> Domain for SizedDomain<VectorDomain<BoundedDomain<T>>> {
    type Carrier = Vec<T>;

    proof fn lemma_domain(&self) {
        T::lemma_pair(self.element_domain.element_domain.bounds());
        self.element_domain.element_domain.bounds().0.lemma_scalar_atom();
    }
}

impl<T: Primitive> Clone for SizedDomain<VectorDomain<BoundedDomain<T>>> {
    fn clone(&self) -> (r: Self)
        ensures
            r.erased() == self.erased(),
    {
        SizedDomain { element_domain: self.element_domain.clone(), size: self.size }
    }
}

impl<T: Primitive> PartialEq for SizedDomain<VectorDomain<BoundedDomain<T>>> {
    fn eq(&self, other: &Self) -> (r: bool) {
        proof {
            T::lemma_pair(self.element_domain.element_domain.bounds());
            T::lemma_pair(other.element_domain.element_domain.bounds());
        }
        self.element_domain == other.element_domain && self.size == other.size
    }
}

impl<T: Primitive> vstd::std_specs::cmp::PartialEqSpecImpl for SizedDomain<VectorDomain<BoundedDomain<T>>> {
    open spec fn obeys_eq_spec() -> bool {
        true
    }

    open spec fn eq_spec(&self, other: &Self) -> bool {
        self.erased().same(other.erased())
    }
}

impl Erasable for DataFrameDomain<String> {
    open spec fn type_tag() -> Type {
        Type::Domain(DomainKind::DataFrame, Atom::String)
    }

    open spec fn erased(&self) -> ValueView {
        ValueView::Domain(DomainValue::DataFrame)
    }

    open spec fn alike(&self, other: &Self) -> bool {
        true
    }

    proof fn lemma_erased_injective(&self, other: &Self) {
    }

    proof fn lemma_erased_tag(&self) {
    }

    fn tag() -> (t: Type) {
        Type::Domain(DomainKind::DataFrame, Atom::String)
    }

    fn erase(self) -> (v: Value) {
        Value::Domain(DomainValue::DataFrame)
    }

    fn recover(v: &Value) -> (r: Option<Self>) {
        match v {
            Value::Domain(DomainValue::DataFrame) => Some(DataFrameDomain { _marker: PhantomData }),
            _ => None,
        }
    }
}

impl Domain for DataFrameDomain<String> {
    type Carrier = HashMap<String, Column>;

    proof fn lemma_domain(&self) {
    }
}

impl Clone for DataFrameDomain<String> {
    fn clone(&self) -> (r: Self)
        ensures
            r.erased() == self.erased(),
    {
        DataFrameDomain { _marker: PhantomData }
    }
}

impl PartialEq for DataFrameDomain<String> {
    fn eq(&self, other: &Self) -> (r: bool) {
        true
    }
}

impl vstd::std_specs::cmp::PartialEqSpecImpl for DataFrameDomain<String> {
    open spec fn obeys_eq_spec() -> bool {
        true
    }

    open spec fn eq_spec(&self, other: &Self) -> bool {
        self.erased().same(other.erased())
    }
}

impl<T: Primitive> Erasable for InherentNullDomain<AllDomain<T>> {
    open spec fn type_tag() -> Type {
        Type::Domain(DomainKind::InherentNull, T::atom())
    }

    open spec fn erased(&self) -> ValueView {
        ValueView::Domain(DomainValue::InherentNull(T::atom()))
    }

    open spec fn alike(&self, other: &Self) -> bool {
        true
    }

    proof fn lemma_erased_injective(&self, other: &Self) {
    }

    proof fn lemma_erased_tag(&self) {
    }

    fn tag() -> (t: Type) {
        Type::Domain(DomainKind::InherentNull, T::atom_of())
    }

    fn erase(self) -> (v: Value) {
        Value::Domain(DomainValue::InherentNull(T::atom_of()))
    }

    fn recover(v: &Value) -> (r: Option<Self>) {
        match v {
            Value::Domain(DomainValue::InherentNull(a)) => if *a == T::atom_of() {
                Some(InherentNullDomain { element_domain: AllDomain { _marker: PhantomData } })
            } else {
                None
            },
            _ => None,
        }
    }
}

impl<T: Primitive> Domain for InherentNullDomain<AllDomain<T>> {
    type Carrier = T;

    proof fn lemma_domain(&self) {
    }
}

impl<T: Primitive> Clone for InherentNullDomain<AllDomain<T>> {
    fn clone(&self) -> (r: Self)
        ensures
            r.erased() == self.erased(),
    {
        InherentNullDomain { element_domain: AllDomain { _marker: PhantomData } }
    }
}

impl<T: Primitive> PartialEq for InherentNullDomain<AllDomain<T>> {
    fn eq(&self, other: &Self) -> (r: bool) {
        true
    }
}

impl<T: Primitive> vstd::std_specs::cmp::PartialEqSpecImpl for InherentNullDomain<AllDomain<T>> {
    open spec fn obeys_eq_spec() -> bool {
        true
    }

    open spec fn eq_spec(&self, other: &Self) -> bool {
        self.erased().same(other.erased())
    }
}

impl<T: Primitive> Erasable for VectorDomain<InherentNullDomain<AllDomain<T>>> {
    open spec fn type_tag() -> Type {
        Type::Domain(DomainKind::VectorInherentNull, T::atom())
    }

    open spec fn erased(&self) -> ValueView {
        ValueView::Domain(DomainValue::VectorInherentNull(T::atom()))
    }

    open spec fn alike(&self, other: &Self) -> bool {
        true
    }

    proof fn lemma_erased_injective(&self, other: &Self) {
    }

    proof fn lemma_erased_tag(&self) {
    }

    fn tag() -> (t: Type) {
        Type::Domain(DomainKind::VectorInherentNull, T::atom_of())
    }

    fn erase(self) -> (v: Value) {
        Value::Domain(DomainValue::VectorInherentNull(T::atom_of()))
    }

    fn recover(v: &Value) -> (r: Option<Self>) {
        match v {
            Value::Domain(DomainValue::VectorInherentNull(a)) => if *a == T::atom_of() {
                Some(VectorDomain { element_domain: InherentNullDomain { element_domain: AllDomain { _marker: PhantomData } } })
            } else {
                None
            },
            _ => None,
        }
    }
}

impl<T: Primitive> Domain for VectorDomain<InherentNullDomain<AllDomain<T>>> {
    type Carrier = Vec<T>;

    proof fn lemma_domain(&self) {
    }
}

impl<T: Primitive> Clone for VectorDomain<InherentNullDomain<AllDomain<T>>> {
    fn clone(&self) -> (r: Self)
        ensures
            r.erased() == self.erased(),
    {
        VectorDomain { element_domain: InherentNullDomain { element_domain: AllDomain { _marker: PhantomData } } }
    }
}

impl<T: Primitive> PartialEq for VectorDomain<InherentNullDomain<AllDomain<T>>> {
    fn eq(&self, other: &Self) -> (r: bool) {
        true
    }
}

impl<T: Primitive> vstd::std_specs::cmp::PartialEqSpecImpl for VectorDomain<InherentNullDomain<AllDomain<T>>> {
    open spec fn obeys_eq_spec() -> bool {
        true
    }

    open spec fn eq_spec(&self, other: &Self) -> bool {
        self.erased().same(other.erased())
    }
}

} // verus!
