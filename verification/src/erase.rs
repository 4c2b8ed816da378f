//! The types whose values can be carried, and how each is erased and recovered.
use vstd::prelude::*;
use std::collections::HashMap;
use opendp::data::Column;
use crate::float::{Float32, Float64};
use crate::util::{Atom, Type};
use crate::value::{copy_texts, copy_vec, texts, Pair, Scalar, Value, ValueView, Vector};

verus! {

/// An atomic type: its values are carried one at a time, in pairs and in
/// vectors.
pub trait Primitive: Copy + Sized {
    /// The tag of the atomic type.
    spec fn atom() -> Atom;

    /// The value in its erased form.
    spec fn scalar(self) -> Scalar;

    /// Two values in their erased form.
    spec fn pair(p: (Self, Self)) -> Pair;

    /// The erased form of two values holds the erased form of each.
    proof fn lemma_pair(p: (Self, Self))
        ensures
            Self::pair(p).first() == p.0.scalar(),
            Self::pair(p).second() == p.1.scalar(),
    ;

    /// Values with one erased form are one value.
    proof fn lemma_scalar_injective(self, other: Self)
        requires
            self.scalar() == other.scalar(),
        ensures
            self == other,
    ;

    /// The erased form of a value is of this atomic type.
    proof fn lemma_scalar_atom(self)
        ensures
            self.scalar().atom() == Self::atom(),
    ;

    /// No atomic type of this kind is the type of texts.
    proof fn lemma_not_text()
        ensures
            Self::atom() != Atom::String,
    ;

    /// The tag of the atomic type.
    fn atom_of() -> (a: Atom)
        ensures
            a == Self::atom(),
    ;

    /// The value in its erased form.
    fn into_scalar(self) -> (s: Scalar)
        ensures
            s == self.scalar(),
            s.atom() == Self::atom(),
    ;

    /// The value of this type that was erased, where it was of this type.
    fn from_scalar(s: &Scalar) -> (r: Option<Self>)
        ensures
            r is Some <==> s.atom() == Self::atom(),
            r matches Some(x) ==> x.scalar() == *s,
    ;

    /// Two values in their erased form.
    fn into_pair(p: (Self, Self)) -> (r: Pair)
        ensures
            r == Self::pair(p),
            r.atom() == Self::atom(),
    ;

    /// The two values of this type that were erased, where they were of
    /// this type.
    fn from_pair(p: &Pair) -> (r: Option<(Self, Self)>)
        ensures
            r is Some <==> p.atom() == Self::atom(),
            r matches Some(x) ==> Self::pair(x) == *p,
    ;

    /// A vector of values in its erased form.
    fn into_vector(v: Vec<Self>) -> (r: Vector)
        ensures
            r.atom() == Self::atom(),
            r.elements() == Seq::new(v@.len(), |i: int| v@[i].scalar()),
    ;

    /// The vector of values of this type that was erased, where they were
    /// of this type.
    fn vector_ref(v: &Vector) -> (r: Option<&Vec<Self>>)
        ensures
            r is Some <==> v.atom() == Self::atom(),
            r matches Some(x) ==> Seq::new(x@.len(), |i: int| x@[i].scalar()) == v.elements(),
    ;
}

/// The erased forms of a sequence of values of an atomic type.
pub open spec fn scalars<A: Primitive>(v: Seq<A>) -> Seq<Scalar> {
    Seq::new(v.len(), |i: int| v[i].scalar())
}

/// Sequences whose values have the same erased forms are one sequence.
pub proof fn lemma_same_elements<A: Primitive>(a: Seq<A>, b: Seq<A>)
    requires
        scalars::<A>(a) == scalars::<A>(b),
    ensures
        a == b,
{
    assert(scalars::<A>(a).len() == a.len());
    assert(scalars::<A>(b).len() == b.len());
    assert forall|i: int| 0 <= i < a.len() implies a[i] == b[i] by {
        assert(scalars::<A>(a)[i] == a[i].scalar());
        assert(scalars::<A>(b)[i] == b[i].scalar());
        a[i].lemma_scalar_injective(b[i]);
    }
    assert(a =~= b);
}

impl Primitive for bool {
    open spec fn atom() -> Atom {
        Atom::Bool
    }

    open spec fn scalar(self) -> Scalar {
        Scalar::Bool(self)
    }

    open spec fn pair(p: (Self, Self)) -> Pair {
        Pair::Bool(p)
    }

    proof fn lemma_pair(p: (Self, Self)) {
    }

    proof fn lemma_scalar_injective(self, other: Self) {
    }

    proof fn lemma_scalar_atom(self) {
    }

    proof fn lemma_not_text() {
    }

    fn atom_of() -> (a: Atom) {
        Atom::Bool
    }

    fn into_scalar(self) -> (s: Scalar) {
        Scalar::Bool(self)
    }

    fn from_scalar(s: &Scalar) -> (r: Option<Self>) {
        match s {
            Scalar::Bool(x) => Some(*x),
            _ => None,
        }
    }

    fn into_pair(p: (Self, Self)) -> (r: Pair) {
        Pair::Bool(p)
    }

    fn from_pair(p: &Pair) -> (r: Option<(Self, Self)>) {
        match p {
            Pair::Bool(x) => Some(*x),
            _ => None,
        }
    }

    fn into_vector(v: Vec<Self>) -> (r: Vector) {
        let r = Vector::Bool(v);
        assert(r.elements() =~= Seq::new(v@.len(), |i: int| v@[i].scalar()));
        r
    }

    fn vector_ref(v: &Vector) -> (r: Option<&Vec<Self>>) {
        match v {
            Vector::Bool(x) => {
                assert(Seq::new(x@.len(), |i: int| x@[i].scalar()) =~= v.elements());
                Some(x)
            },
            _ => None,
        }
    }
}

impl Primitive for u8 {
    open spec fn atom() -> Atom {
        Atom::U8
    }

    open spec fn scalar(self) -> Scalar {
        Scalar::U8(self)
    }

    open spec fn pair(p: (Self, Self)) -> Pair {
        Pair::U8(p)
    }

    proof fn lemma_pair(p: (Self, Self)) {
    }

    proof fn lemma_scalar_injective(self, other: Self) {
    }

    proof fn lemma_scalar_atom(self) {
    }

    proof fn lemma_not_text() {
    }

    fn atom_of() -> (a: Atom) {
        Atom::U8
    }

    fn into_scalar(self) -> (s: Scalar) {
        Scalar::U8(self)
    }

    fn from_scalar(s: &Scalar) -> (r: Option<Self>) {
        match s {
            Scalar::U8(x) => Some(*x),
            _ => None,
        }
    }

    fn into_pair(p: (Self, Self)) -> (r: Pair) {
        Pair::U8(p)
    }

    fn from_pair(p: &Pair) -> (r: Option<(Self, Self)>) {
        match p {
            Pair::U8(x) => Some(*x),
            _ => None,
        }
    }

    fn into_vector(v: Vec<Self>) -> (r: Vector) {
        let r = Vector::U8(v);
        assert(r.elements() =~= Seq::new(v@.len(), |i: int| v@[i].scalar()));
        r
    }

    fn vector_ref(v: &Vector) -> (r: Option<&Vec<Self>>) {
        match v {
            Vector::U8(x) => {
                assert(Seq::new(x@.len(), |i: int| x@[i].scalar()) =~= v.elements());
                Some(x)
            },
            _ => None,
        }
    }
}

impl Primitive for u16 {
    open spec fn atom() -> Atom {
        Atom::U16
    }

    open spec fn scalar(self) -> Scalar {
        Scalar::U16(self)
    }

    open spec fn pair(p: (Self, Self)) -> Pair {
        Pair::U16(p)
    }

    proof fn lemma_pair(p: (Self, Self)) {
    }

    proof fn lemma_scalar_injective(self, other: Self) {
    }

    proof fn lemma_scalar_atom(self) {
    }

    proof fn lemma_not_text() {
    }

    fn atom_of() -> (a: Atom) {
        Atom::U16
    }

    fn into_scalar(self) -> (s: Scalar) {
        Scalar::U16(self)
    }

    fn from_scalar(s: &Scalar) -> (r: Option<Self>) {
        match s {
            Scalar::U16(x) => Some(*x),
            _ => None,
        }
    }

    fn into_pair(p: (Self, Self)) -> (r: Pair) {
        Pair::U16(p)
    }

    fn from_pair(p: &Pair) -> (r: Option<(Self, Self)>) {
        match p {
            Pair::U16(x) => Some(*x),
            _ => None,
        }
    }

    fn into_vector(v: Vec<Self>) -> (r: Vector) {
        let r = Vector::U16(v);
        assert(r.elements() =~= Seq::new(v@.len(), |i: int| v@[i].scalar()));
        r
    }

    fn vector_ref(v: &Vector) -> (r: Option<&Vec<Self>>) {
        match v {
            Vector::U16(x) => {
                assert(Seq::new(x@.len(), |i: int| x@[i].scalar()) =~= v.elements());
                Some(x)
            },
            _ => None,
        }
    }
}

impl Primitive for u32 {
    open spec fn atom() -> Atom {
        Atom::U32
    }

    open spec fn scalar(self) -> Scalar {
        Scalar::U32(self)
    }

    open spec fn pair(p: (Self, Self)) -> Pair {
        Pair::U32(p)
    }

    proof fn lemma_pair(p: (Self, Self)) {
    }

    proof fn lemma_scalar_injective(self, other: Self) {
    }

    proof fn lemma_scalar_atom(self) {
    }

    proof fn lemma_not_text() {
    }

    fn atom_of() -> (a: Atom) {
        Atom::U32
    }

    fn into_scalar(self) -> (s: Scalar) {
        Scalar::U32(self)
    }

    fn from_scalar(s: &Scalar) -> (r: Option<Self>) {
        match s {
            Scalar::U32(x) => Some(*x),
            _ => None,
        }
    }

    fn into_pair(p: (Self, Self)) -> (r: Pair) {
        Pair::U32(p)
    }

    fn from_pair(p: &Pair) -> (r: Option<(Self, Self)>) {
        match p {
            Pair::U32(x) => Some(*x),
            _ => None,
        }
    }

    fn into_vector(v: Vec<Self>) -> (r: Vector) {
        let r = Vector::U32(v);
        assert(r.elements() =~= Seq::new(v@.len(), |i: int| v@[i].scalar()));
        r
    }

    fn vector_ref(v: &Vector) -> (r: Option<&Vec<Self>>) {
        match v {
            Vector::U32(x) => {
                assert(Seq::new(x@.len(), |i: int| x@[i].scalar()) =~= v.elements());
                Some(x)
            },
            _ => None,
        }
    }
}

impl Primitive for u64 {
    open spec fn atom() -> Atom {
        Atom::U64
    }

    open spec fn scalar(self) -> Scalar {
        Scalar::U64(self)
    }

    open spec fn pair(p: (Self, Self)) -> Pair {
        Pair::U64(p)
    }

    proof fn lemma_pair(p: (Self, Self)) {
    }

    proof fn lemma_scalar_injective(self, other: Self) {
    }

    proof fn lemma_scalar_atom(self) {
    }

    proof fn lemma_not_text() {
    }

    fn atom_of() -> (a: Atom) {
        Atom::U64
    }

    fn into_scalar(self) -> (s: Scalar) {
        Scalar::U64(self)
    }

    fn from_scalar(s: &Scalar) -> (r: Option<Self>) {
        match s {
            Scalar::U64(x) => Some(*x),
            _ => None,
        }
    }

    fn into_pair(p: (Self, Self)) -> (r: Pair) {
        Pair::U64(p)
    }

    fn from_pair(p: &Pair) -> (r: Option<(Self, Self)>) {
        match p {
            Pair::U64(x) => Some(*x),
            _ => None,
        }
    }

    fn into_vector(v: Vec<Self>) -> (r: Vector) {
        let r = Vector::U64(v);
        assert(r.elements() =~= Seq::new(v@.len(), |i: int| v@[i].scalar()));
        r
    }

    fn vector_ref(v: &Vector) -> (r: Option<&Vec<Self>>) {
        match v {
            Vector::U64(x) => {
                assert(Seq::new(x@.len(), |i: int| x@[i].scalar()) =~= v.elements());
                Some(x)
            },
            _ => None,
        }
    }
}

impl Primitive for i8 {
    open spec fn atom() -> Atom {
        Atom::I8
    }

    open spec fn scalar(self) -> Scalar {
        Scalar::I8(self)
    }

    open spec fn pair(p: (Self, Self)) -> Pair {
        Pair::I8(p)
    }

    proof fn lemma_pair(p: (Self, Self)) {
    }

    proof fn lemma_scalar_injective(self, other: Self) {
    }

    proof fn lemma_scalar_atom(self) {
    }

    proof fn lemma_not_text() {
    }

    fn atom_of() -> (a: Atom) {
        Atom::I8
    }

    fn into_scalar(self) -> (s: Scalar) {
        Scalar::I8(self)
    }

    fn from_scalar(s: &Scalar) -> (r: Option<Self>) {
        match s {
            Scalar::I8(x) => Some(*x),
            _ => None,
        }
    }

    fn into_pair(p: (Self, Self)) -> (r: Pair) {
        Pair::I8(p)
    }

    fn from_pair(p: &Pair) -> (r: Option<(Self, Self)>) {
        match p {
            Pair::I8(x) => Some(*x),
            _ => None,
        }
    }

    fn into_vector(v: Vec<Self>) -> (r: Vector) {
        let r = Vector::I8(v);
        assert(r.elements() =~= Seq::new(v@.len(), |i: int| v@[i].scalar()));
        r
    }

    fn vector_ref(v: &Vector) -> (r: Option<&Vec<Self>>) {
        match v {
            Vector::I8(x) => {
                assert(Seq::new(x@.len(), |i: int| x@[i].scalar()) =~= v.elements());
                Some(x)
            },
            _ => None,
        }
    }
}

impl Primitive for i16 {
    open spec fn atom() -> Atom {
        Atom::I16
    }

    open spec fn scalar(self) -> Scalar {
        Scalar::I16(self)
    }

    open spec fn pair(p: (Self, Self)) -> Pair {
        Pair::I16(p)
    }

    proof fn lemma_pair(p: (Self, Self)) {
    }

    proof fn lemma_scalar_injective(self, other: Self) {
    }

    proof fn lemma_scalar_atom(self) {
    }

    proof fn lemma_not_text() {
    }

    fn atom_of() -> (a: Atom) {
        Atom::I16
    }

    fn into_scalar(self) -> (s: Scalar) {
        Scalar::I16(self)
    }

    fn from_scalar(s: &Scalar) -> (r: Option<Self>) {
        match s {
            Scalar::I16(x) => Some(*x),
            _ => None,
        }
    }

    fn into_pair(p: (Self, Self)) -> (r: Pair) {
        Pair::I16(p)
    }

    fn from_pair(p: &Pair) -> (r: Option<(Self, Self)>) {
        match p {
            Pair::I16(x) => Some(*x),
            _ => None,
        }
    }

    fn into_vector(v: Vec<Self>) -> (r: Vector) {
        let r = Vector::I16(v);
        assert(r.elements() =~= Seq::new(v@.len(), |i: int| v@[i].scalar()));
        r
    }

    fn vector_ref(v: &Vector) -> (r: Option<&Vec<Self>>) {
        match v {
            Vector::I16(x) => {
                assert(Seq::new(x@.len(), |i: int| x@[i].scalar()) =~= v.elements());
                Some(x)
            },
            _ => None,
        }
    }
}

impl Primitive for i32 {
    open spec fn atom() -> Atom {
        Atom::I32
    }

    open spec fn scalar(self) -> Scalar {
        Scalar::I32(self)
    }

    open spec fn pair(p: (Self, Self)) -> Pair {
        Pair::I32(p)
    }

    proof fn lemma_pair(p: (Self, Self)) {
    }

    proof fn lemma_scalar_injective(self, other: Self) {
    }

    proof fn lemma_scalar_atom(self) {
    }

    proof fn lemma_not_text() {
    }

    fn atom_of() -> (a: Atom) {
        Atom::I32
    }

    fn into_scalar(self) -> (s: Scalar) {
        Scalar::I32(self)
    }

    fn from_scalar(s: &Scalar) -> (r: Option<Self>) {
        match s {
            Scalar::I32(x) => Some(*x),
            _ => None,
        }
    }

    fn into_pair(p: (Self, Self)) -> (r: Pair) {
        Pair::I32(p)
    }

    fn from_pair(p: &Pair) -> (r: Option<(Self, Self)>) {
        match p {
            Pair::I32(x) => Some(*x),
            _ => None,
        }
    }

    fn into_vector(v: Vec<Self>) -> (r: Vector) {
        let r = Vector::I32(v);
        assert(r.elements() =~= Seq::new(v@.len(), |i: int| v@[i].scalar()));
        r
    }

    fn vector_ref(v: &Vector) -> (r: Option<&Vec<Self>>) {
        match v {
            Vector::I32(x) => {
                assert(Seq::new(x@.len(), |i: int| x@[i].scalar()) =~= v.elements());
                Some(x)
            },
            _ => None,
        }
    }
}

impl Primitive for i64 {
    open spec fn atom() -> Atom {
        Atom::I64
    }

    open spec fn scalar(self) -> Scalar {
        Scalar::I64(self)
    }

    open spec fn pair(p: (Self, Self)) -> Pair {
        Pair::I64(p)
    }

    proof fn lemma_pair(p: (Self, Self)) {
    }

    proof fn lemma_scalar_injective(self, other: Self) {
    }

    proof fn lemma_scalar_atom(self) {
    }

    proof fn lemma_not_text() {
    }

    fn atom_of() -> (a: Atom) {
        Atom::I64
    }

    fn into_scalar(self) -> (s: Scalar) {
        Scalar::I64(self)
    }

    fn from_scalar(s: &Scalar) -> (r: Option<Self>) {
        match s {
            Scalar::I64(x) => Some(*x),
            _ => None,
        }
    }

    fn into_pair(p: (Self, Self)) -> (r: Pair) {
        Pair::I64(p)
    }

    fn from_pair(p: &Pair) -> (r: Option<(Self, Self)>) {
        match p {
            Pair::I64(x) => Some(*x),
            _ => None,
        }
    }

    fn into_vector(v: Vec<Self>) -> (r: Vector) {
        let r = Vector::I64(v);
        assert(r.elements() =~= Seq::new(v@.len(), |i: int| v@[i].scalar()));
        r
    }

    fn vector_ref(v: &Vector) -> (r: Option<&Vec<Self>>) {
        match v {
            Vector::I64(x) => {
                assert(Seq::new(x@.len(), |i: int| x@[i].scalar()) =~= v.elements());
                Some(x)
            },
            _ => None,
        }
    }
}

impl Primitive for Float32 {
    open spec fn atom() -> Atom {
        Atom::F32
    }

    open spec fn scalar(self) -> Scalar {
        Scalar::F32(self)
    }

    open spec fn pair(p: (Self, Self)) -> Pair {
        Pair::F32(p)
    }

    proof fn lemma_pair(p: (Self, Self)) {
    }

    proof fn lemma_scalar_injective(self, other: Self) {
    }

    proof fn lemma_scalar_atom(self) {
    }

    proof fn lemma_not_text() {
    }

    fn atom_of() -> (a: Atom) {
        Atom::F32
    }

    fn into_scalar(self) -> (s: Scalar) {
        Scalar::F32(self)
    }

    fn from_scalar(s: &Scalar) -> (r: Option<Self>) {
        match s {
            Scalar::F32(x) => Some(*x),
            _ => None,
        }
    }

    fn into_pair(p: (Self, Self)) -> (r: Pair) {
        Pair::F32(p)
    }

    fn from_pair(p: &Pair) -> (r: Option<(Self, Self)>) {
        match p {
            Pair::F32(x) => Some(*x),
            _ => None,
        }
    }

    fn into_vector(v: Vec<Self>) -> (r: Vector) {
        let r = Vector::F32(v);
        assert(r.elements() =~= Seq::new(v@.len(), |i: int| v@[i].scalar()));
        r
    }

    fn vector_ref(v: &Vector) -> (r: Option<&Vec<Self>>) {
        match v {
            Vector::F32(x) => {
                assert(Seq::new(x@.len(), |i: int| x@[i].scalar()) =~= v.elements());
                Some(x)
            },
            _ => None,
        }
    }
}

impl Primitive for Float64 {
    open spec fn atom() -> Atom {
        Atom::F64
    }

    open spec fn scalar(self) -> Scalar {
        Scalar::F64(self)
    }

    open spec fn pair(p: (Self, Self)) -> Pair {
        Pair::F64(p)
    }

    proof fn lemma_pair(p: (Self, Self)) {
    }

    proof fn lemma_scalar_injective(self, other: Self) {
    }

    proof fn lemma_scalar_atom(self) {
    }

    proof fn lemma_not_text() {
    }

    fn atom_of() -> (a: Atom) {
        Atom::F64
    }

    fn into_scalar(self) -> (s: Scalar) {
        Scalar::F64(self)
    }

    fn from_scalar(s: &Scalar) -> (r: Option<Self>) {
        match s {
            Scalar::F64(x) => Some(*x),
            _ => None,
        }
    }

    fn into_pair(p: (Self, Self)) -> (r: Pair) {
        Pair::F64(p)
    }

    fn from_pair(p: &Pair) -> (r: Option<(Self, Self)>) {
        match p {
            Pair::F64(x) => Some(*x),
            _ => None,
        }
    }

    fn into_vector(v: Vec<Self>) -> (r: Vector) {
        let r = Vector::F64(v);
        assert(r.elements() =~= Seq::new(v@.len(), |i: int| v@[i].scalar()));
        r
    }

    fn vector_ref(v: &Vector) -> (r: Option<&Vec<Self>>) {
        match v {
            Vector::F64(x) => {
                assert(Seq::new(x@.len(), |i: int| x@[i].scalar()) =~= v.elements());
                Some(x)
            },
            _ => None,
        }
    }
}

/// A type whose values can be carried in an erased container.
pub trait Erasable: Sized {
    /// The tag that names the type.
    spec fn type_tag() -> Type;

    /// The value in its erased form.
    spec fn erased(&self) -> ValueView;

    /// Whether the two are one value of the type.
    spec fn alike(&self, other: &Self) -> bool;

    /// Nothing is lost in erasing: values with one erased form are one value.
    proof fn lemma_erased_injective(&self, other: &Self)
        requires
            self.erased() == other.erased(),
        ensures
            self.alike(other),
    ;

    /// The erased form of a value is of this type.
    proof fn lemma_erased_tag(&self)
        ensures
            self.erased().type_tag() == Self::type_tag(),
    ;

    /// The tag that names the type.
    fn tag() -> (t: Type)
        ensures
            t == Self::type_tag(),
    ;

    /// Gives the value up for its erased form.
    fn erase(self) -> (v: Value)
        ensures
            v@ == self.erased(),
            v@.type_tag() == Self::type_tag(),
    ;

    /// Recovers a value of this type from an erased one: there is one exactly
    /// when the erased value is of this type.
    fn recover(v: &Value) -> (r: Option<Self>)
        ensures
            r is Some <==> v@.type_tag() == Self::type_tag(),
            r matches Some(x) ==> x.erased() == v@,
    ;
}

impl<A: Primitive> Erasable for A {
    open spec fn type_tag() -> Type {
        Type::Atom(A::atom())
    }

    open spec fn erased(&self) -> ValueView {
        ValueView::Scalar(self.scalar())
    }

    open spec fn alike(&self, other: &Self) -> bool {
        *self == *other
    }

    proof fn lemma_erased_injective(&self, other: &Self) {
        self.lemma_scalar_injective(*other);
    }

    proof fn lemma_erased_tag(&self) {
        self.lemma_scalar_atom();
    }

    fn tag() -> (t: Type) {
        Type::Atom(A::atom_of())
    }

    fn erase(self) -> (v: Value) {
        Value::Scalar(self.into_scalar())
    }

    fn recover(v: &Value) -> (r: Option<Self>) {
        proof {
            A::lemma_not_text();
        }
        match v {
            Value::Scalar(s) => A::from_scalar(s),
            _ => None,
        }
    }
}

impl<A: Primitive> Erasable for (A, A) {
    open spec fn type_tag() -> Type {
        Type::Pair(A::atom())
    }

    open spec fn erased(&self) -> ValueView {
        ValueView::Pair(self.0.scalar(), self.1.scalar())
    }

    open spec fn alike(&self, other: &Self) -> bool {
        *self == *other
    }

    proof fn lemma_erased_injective(&self, other: &Self) {
        self.0.lemma_scalar_injective(other.0);
        self.1.lemma_scalar_injective(other.1);
    }

    proof fn lemma_erased_tag(&self) {
        self.0.lemma_scalar_atom();
    }

    fn tag() -> (t: Type) {
        Type::Pair(A::atom_of())
    }

    fn erase(self) -> (v: Value) {
        proof {
            A::lemma_pair(self);
        }
        Value::Pair(A::into_pair(self))
    }

    fn recover(v: &Value) -> (r: Option<Self>) {
        match v {
            Value::Pair(p) => {
                let r = A::from_pair(p);
                proof {
                    if let Some(x) = r {
                        A::lemma_pair(x);
                    }
                }
                r
            },
            _ => None,
        }
    }
}

impl<A: Primitive> Erasable for Vec<A> {
    open spec fn type_tag() -> Type {
        Type::Vector(A::atom())
    }

    open spec fn erased(&self) -> ValueView {
        ValueView::Vector(A::atom(), scalars::<A>(self@))
    }

    open spec fn alike(&self, other: &Self) -> bool {
        self@ == other@
    }

    proof fn lemma_erased_injective(&self, other: &Self) {
        lemma_same_elements::<A>(self@, other@);
    }

    proof fn lemma_erased_tag(&self) {
    }

    fn tag() -> (t: Type) {
        Type::Vector(A::atom_of())
    }

    fn erase(self) -> (v: Value) {
        Value::Vector(A::into_vector(self))
    }

    fn recover(v: &Value) -> (r: Option<Self>) {
        proof {
            A::lemma_not_text();
        }
        match v {
            Value::Vector(x) => match A::vector_ref(x) {
                Some(elements) => Some(copy_vec(elements)),
                None => None,
            },
            _ => None,
        }
    }
}

impl Erasable for String {
    open spec fn type_tag() -> Type {
        Type::Atom(Atom::String)
    }

    open spec fn erased(&self) -> ValueView {
        ValueView::Text(self@)
    }

    open spec fn alike(&self, other: &Self) -> bool {
        self@ == other@
    }

    proof fn lemma_erased_injective(&self, other: &Self) {
    }

    proof fn lemma_erased_tag(&self) {
    }

    fn tag() -> (t: Type) {
        Type::Atom(Atom::String)
    }

    fn erase(self) -> (v: Value) {
        Value::Text(self)
    }

    fn recover(v: &Value) -> (r: Option<Self>) {
        match v {
            Value::Text(s) => Some(s.clone()),
            _ => None,
        }
    }
}

impl Erasable for Vec<String> {
    open spec fn type_tag() -> Type {
        Type::Vector(Atom::String)
    }

    open spec fn erased(&self) -> ValueView {
        ValueView::TextVector(texts(self@))
    }

    open spec fn alike(&self, other: &Self) -> bool {
        texts(self@) == texts(other@)
    }

    proof fn lemma_erased_injective(&self, other: &Self) {
    }

    proof fn lemma_erased_tag(&self) {
    }

    fn tag() -> (t: Type) {
        Type::Vector(Atom::String)
    }

    fn erase(self) -> (v: Value) {
        Value::TextVector(self)
    }

    fn recover(v: &Value) -> (r: Option<Self>) {
        match v {
            Value::TextVector(s) => Some(copy_texts(s)),
            _ => None,
        }
    }
}

impl Erasable for HashMap<String, Column> {
    open spec fn type_tag() -> Type {
        Type::DataFrame
    }

    open spec fn erased(&self) -> ValueView {
        ValueView::DataFrame(self@)
    }

    open spec fn alike(&self, other: &Self) -> bool {
        self@ == other@
    }

    proof fn lemma_erased_injective(&self, other: &Self) {
    }

    proof fn lemma_erased_tag(&self) {
    }

    fn tag() -> (t: Type) {
        Type::DataFrame
    }

    fn erase(self) -> (v: Value) {
        Value::DataFrame(self)
    }

    fn recover(v: &Value) -> (r: Option<Self>) {
        match v {
            Value::DataFrame(frame) => Some(frame.clone()),
            _ => None,
        }
    }
}

impl Type {
    /// The tag of the type `T`.
    pub fn of<T: Erasable>() -> (t: Type)
        ensures
            t == T::type_tag(),
    {
        T::tag()
    }
}

} // verus!
