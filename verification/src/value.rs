//! The values that can be carried, in the form in which a container owns them.
use vstd::prelude::*;
use vstd::string::*;
use std::collections::HashMap;
use opendp::data::Column;
use crate::float::{Float32, Float64, Order, order_of};
use crate::util::{Atom, DomainKind, MeasureKind, MetricKind, Type};

verus! {

/// `opendp::data::Column`: one column of a data frame, a vector of values of
/// a type that the column does not show. Nothing here reads it.
#[verifier::external_type_specification]
#[verifier::external_body]
pub struct ExColumn(opendp::data::Column);

/// Whether two data frames are equal: what `==` gives for maps from names to
/// columns with these contents.
pub uninterp spec fn frames_equal(a: Map<String, Column>, b: Map<String, Column>) -> bool;

/// `<HashMap<String, Column> as PartialEq>::eq`: whether the two data frames
/// hold equal columns under the same names. The answer depends on what the
/// two hold and on nothing else.
#[verifier::external_body]
fn frames_eq(a: &HashMap<String, Column>, b: &HashMap<String, Column>) -> (r: bool)
    ensures
        r == frames_equal(a@, b@),
{
    a == b
}

/// One value of an atomic type.
#[derive(Clone, Copy, Debug)]
pub enum Scalar {
    Bool(bool),
    U8(u8),
    U16(u16),
    U32(u32),
    U64(u64),
    I8(i8),
    I16(i16),
    I32(i32),
    I64(i64),
    F32(Float32),
    F64(Float64),
}

/// Two values of one atomic type.
#[derive(Clone, Copy, Debug)]
pub enum Pair {
    Bool((bool, bool)),
    U8((u8, u8)),
    U16((u16, u16)),
    U32((u32, u32)),
    U64((u64, u64)),
    I8((i8, i8)),
    I16((i16, i16)),
    I32((i32, i32)),
    I64((i64, i64)),
    F32((Float32, Float32)),
    F64((Float64, Float64)),
}

/// A sequence of values of one atomic type.
#[derive(Debug)]
pub enum Vector {
    Bool(Vec<bool>),
    U8(Vec<u8>),
    U16(Vec<u16>),
    U32(Vec<u32>),
    U64(Vec<u64>),
    I8(Vec<i8>),
    I16(Vec<i16>),
    I32(Vec<i32>),
    I64(Vec<i64>),
    F32(Vec<Float32>),
    F64(Vec<Float64>),
}

/// What is known of a domain: its shape and its bounds.
#[derive(Clone, Copy, Debug)]
pub enum DomainValue {
    /// Every value of the atomic type that is not null.
    All(Atom),
    /// The values between a lower and an upper bound, both included.
    Bounded(Pair),
    /// The vectors all of whose elements are not null.
    VectorAll(Atom),
    /// The vectors all of whose elements lie between the bounds.
    VectorBounded(Pair),
    /// The vectors of a given number of elements, none of them null.
    SizedVectorAll(Atom, usize),
    /// The vectors of a given number of elements, all between the bounds.
    SizedVectorBounded(Pair, usize),
    /// Every value of the atomic type, the null value among them.
    InherentNull(Atom),
    /// The vectors of values of the atomic type, null values among them.
    VectorInherentNull(Atom),
    /// The data frames.
    DataFrame,
}

/// A value as a container owns it.
#[derive(Debug)]
pub enum Value {
    Scalar(Scalar),
    Pair(Pair),
    Vector(Vector),
    Text(String),
    TextVector(Vec<String>),
    DataFrame(HashMap<String, Column>),
    Domain(DomainValue),
    Metric(MetricKind),
    Measure(MeasureKind),
}

/// The mathematical content of a value.
pub enum ValueView {
    Scalar(Scalar),
    Pair(Scalar, Scalar),
    Vector(Atom, Seq<Scalar>),
    Text(Seq<char>),
    TextVector(Seq<Seq<char>>),
    DataFrame(Map<String, Column>),
    Domain(DomainValue),
    Metric(MetricKind),
    Measure(MeasureKind),
}

impl Scalar {
    /// The atomic type of the value.
    pub open spec fn atom(self) -> Atom {
        match self {
            Scalar::Bool(_) => Atom::Bool,
            Scalar::U8(_) => Atom::U8,
            Scalar::U16(_) => Atom::U16,
            Scalar::U32(_) => Atom::U32,
            Scalar::U64(_) => Atom::U64,
            Scalar::I8(_) => Atom::I8,
            Scalar::I16(_) => Atom::I16,
            Scalar::I32(_) => Atom::I32,
            Scalar::I64(_) => Atom::I64,
            Scalar::F32(_) => Atom::F32,
            Scalar::F64(_) => Atom::F64,
        }
    }

    /// The atomic type.
    pub fn atom_of(&self) -> (a: Atom)
        ensures
            a == self.atom(),
    {
        match self {
            Scalar::Bool(_) => Atom::Bool,
            Scalar::U8(_) => Atom::U8,
            Scalar::U16(_) => Atom::U16,
            Scalar::U32(_) => Atom::U32,
            Scalar::U64(_) => Atom::U64,
            Scalar::I8(_) => Atom::I8,
            Scalar::I16(_) => Atom::I16,
            Scalar::I32(_) => Atom::I32,
            Scalar::I64(_) => Atom::I64,
            Scalar::F32(_) => Atom::F32,
            Scalar::F64(_) => Atom::F64,
        }
    }

    /// The number that a value of an integer type or a truth value stands
    /// for; zero for a floating-point value.
    pub open spec fn integer(self) -> int {
        match self {
            Scalar::Bool(x) => if x { 1 } else { 0 },
            Scalar::U8(x) => x as int,
            Scalar::U16(x) => x as int,
            Scalar::U32(x) => x as int,
            Scalar::U64(x) => x as int,
            Scalar::I8(x) => x as int,
            Scalar::I16(x) => x as int,
            Scalar::I32(x) => x as int,
            Scalar::I64(x) => x as int,
            Scalar::F32(_) => 0,
            Scalar::F64(_) => 0,
        }
    }

    /// The number that the value stands for; zero for a floating-point value.
    pub fn integer_of(&self) -> (n: i128)
        ensures
            n == self.integer(),
    {
        match self {
            Scalar::Bool(x) => if *x { 1 } else { 0 },
            Scalar::U8(x) => *x as i128,
            Scalar::U16(x) => *x as i128,
            Scalar::U32(x) => *x as i128,
            Scalar::U64(x) => *x as i128,
            Scalar::I8(x) => *x as i128,
            Scalar::I16(x) => *x as i128,
            Scalar::I32(x) => *x as i128,
            Scalar::I64(x) => *x as i128,
            Scalar::F32(_) => 0,
            Scalar::F64(_) => 0,
        }
    }

    /// The order in which the type of the two values puts them. Values of
    /// different types are not ordered, nor is a NaN with anything.
    pub open spec fn ordered(self, other: Scalar) -> Option<Order> {
        match (self, other) {
            (Scalar::F32(x), Scalar::F32(y)) => x.ordered(&y),
            (Scalar::F64(x), Scalar::F64(y)) => x.ordered(&y),
            _ => if self.atom() == other.atom() {
                Some(order_of(false, self.integer(), false, other.integer()))
            } else {
                None
            },
        }
    }

    /// Equality as the type of the two values defines it.
    pub open spec fn same(self, other: Scalar) -> bool {
        self.ordered(other) == Some(Order::Equal)
    }

    /// The order in which the type of the two values puts them.
    pub fn compare(&self, other: &Scalar) -> (r: Option<Order>)
        ensures
            r == self.ordered(*other),
    {
        match (self, other) {
            (Scalar::F32(x), Scalar::F32(y)) => x.compare(y),
            (Scalar::F64(x), Scalar::F64(y)) => x.compare(y),
            _ => {
                if self.atom_of() == other.atom_of() {
                    let a: i128 = self.integer_of();
                    let b: i128 = other.integer_of();
                    if a < b {
                        Some(Order::Less)
                    } else if a == b {
                        Some(Order::Equal)
                    } else {
                        Some(Order::Greater)
                    }
                } else {
                    None
                }
            },
        }
    }

    /// Equality as the type of the two values defines it.
    pub fn native_eq(&self, other: &Scalar) -> (r: bool)
        ensures
            r == self.same(*other),
    {
        match self.compare(other) {
            Some(Order::Equal) => true,
            _ => false,
        }
    }
}

impl Pair {
    /// The first value.
    pub open spec fn first(self) -> Scalar {
        match self {
            Pair::Bool(p) => Scalar::Bool(p.0),
            Pair::U8(p) => Scalar::U8(p.0),
            Pair::U16(p) => Scalar::U16(p.0),
            Pair::U32(p) => Scalar::U32(p.0),
            Pair::U64(p) => Scalar::U64(p.0),
            Pair::I8(p) => Scalar::I8(p.0),
            Pair::I16(p) => Scalar::I16(p.0),
            Pair::I32(p) => Scalar::I32(p.0),
            Pair::I64(p) => Scalar::I64(p.0),
            Pair::F32(p) => Scalar::F32(p.0),
            Pair::F64(p) => Scalar::F64(p.0),
        }
    }

    /// The second value.
    pub open spec fn second(self) -> Scalar {
        match self {
            Pair::Bool(p) => Scalar::Bool(p.1),
            Pair::U8(p) => Scalar::U8(p.1),
            Pair::U16(p) => Scalar::U16(p.1),
            Pair::U32(p) => Scalar::U32(p.1),
            Pair::U64(p) => Scalar::U64(p.1),
            Pair::I8(p) => Scalar::I8(p.1),
            Pair::I16(p) => Scalar::I16(p.1),
            Pair::I32(p) => Scalar::I32(p.1),
            Pair::I64(p) => Scalar::I64(p.1),
            Pair::F32(p) => Scalar::F32(p.1),
            Pair::F64(p) => Scalar::F64(p.1),
        }
    }

    /// The atomic type of both values.
    pub open spec fn atom(self) -> Atom {
        self.first().atom()
    }

    /// The first value.
    pub fn lower(&self) -> (s: Scalar)
        ensures
            s == self.first(),
    {
        match self {
            Pair::Bool(p) => Scalar::Bool(p.0),
            Pair::U8(p) => Scalar::U8(p.0),
            Pair::U16(p) => Scalar::U16(p.0),
            Pair::U32(p) => Scalar::U32(p.0),
            Pair::U64(p) => Scalar::U64(p.0),
            Pair::I8(p) => Scalar::I8(p.0),
            Pair::I16(p) => Scalar::I16(p.0),
            Pair::I32(p) => Scalar::I32(p.0),
            Pair::I64(p) => Scalar::I64(p.0),
            Pair::F32(p) => Scalar::F32(p.0),
            Pair::F64(p) => Scalar::F64(p.0),
        }
    }

    /// The second value.
    pub fn upper(&self) -> (s: Scalar)
        ensures
            s == self.second(),
    {
        match self {
            Pair::Bool(p) => Scalar::Bool(p.1),
            Pair::U8(p) => Scalar::U8(p.1),
            Pair::U16(p) => Scalar::U16(p.1),
            Pair::U32(p) => Scalar::U32(p.1),
            Pair::U64(p) => Scalar::U64(p.1),
            Pair::I8(p) => Scalar::I8(p.1),
            Pair::I16(p) => Scalar::I16(p.1),
            Pair::I32(p) => Scalar::I32(p.1),
            Pair::I64(p) => Scalar::I64(p.1),
            Pair::F32(p) => Scalar::F32(p.1),
            Pair::F64(p) => Scalar::F64(p.1),
        }
    }
}

impl Vector {
    /// The atomic type of the elements.
    pub open spec fn atom(&self) -> Atom {
        match self {
            Vector::Bool(_) => Atom::Bool,
            Vector::U8(_) => Atom::U8,
            Vector::U16(_) => Atom::U16,
            Vector::U32(_) => Atom::U32,
            Vector::U64(_) => Atom::U64,
            Vector::I8(_) => Atom::I8,
            Vector::I16(_) => Atom::I16,
            Vector::I32(_) => Atom::I32,
            Vector::I64(_) => Atom::I64,
            Vector::F32(_) => Atom::F32,
            Vector::F64(_) => Atom::F64,
        }
    }

    /// The elements, each as a value of its atomic type.
    pub open spec fn elements(&self) -> Seq<Scalar> {
        match self {
            Vector::Bool(v) => Seq::new(v@.len(), |i: int| Scalar::Bool(v@[i])),
            Vector::U8(v) => Seq::new(v@.len(), |i: int| Scalar::U8(v@[i])),
            Vector::U16(v) => Seq::new(v@.len(), |i: int| Scalar::U16(v@[i])),
            Vector::U32(v) => Seq::new(v@.len(), |i: int| Scalar::U32(v@[i])),
            Vector::U64(v) => Seq::new(v@.len(), |i: int| Scalar::U64(v@[i])),
            Vector::I8(v) => Seq::new(v@.len(), |i: int| Scalar::I8(v@[i])),
            Vector::I16(v) => Seq::new(v@.len(), |i: int| Scalar::I16(v@[i])),
            Vector::I32(v) => Seq::new(v@.len(), |i: int| Scalar::I32(v@[i])),
            Vector::I64(v) => Seq::new(v@.len(), |i: int| Scalar::I64(v@[i])),
            Vector::F32(v) => Seq::new(v@.len(), |i: int| Scalar::F32(v@[i])),
            Vector::F64(v) => Seq::new(v@.len(), |i: int| Scalar::F64(v@[i])),
        }
    }

    /// The atomic type.
    pub fn atom_of(&self) -> (a: Atom)
        ensures
            a == self.atom(),
    {
        match self {
            Vector::Bool(_) => Atom::Bool,
            Vector::U8(_) => Atom::U8,
            Vector::U16(_) => Atom::U16,
            Vector::U32(_) => Atom::U32,
            Vector::U64(_) => Atom::U64,
            Vector::I8(_) => Atom::I8,
            Vector::I16(_) => Atom::I16,
            Vector::I32(_) => Atom::I32,
            Vector::I64(_) => Atom::I64,
            Vector::F32(_) => Atom::F32,
            Vector::F64(_) => Atom::F64,
        }
    }

    /// The number of elements.
    pub fn len(&self) -> (n: usize)
        ensures
            n == self.elements().len(),
    {
        match self {
            Vector::Bool(v) => v.len(),
            Vector::U8(v) => v.len(),
            Vector::U16(v) => v.len(),
            Vector::U32(v) => v.len(),
            Vector::U64(v) => v.len(),
            Vector::I8(v) => v.len(),
            Vector::I16(v) => v.len(),
            Vector::I32(v) => v.len(),
            Vector::I64(v) => v.len(),
            Vector::F32(v) => v.len(),
            Vector::F64(v) => v.len(),
        }
    }

    /// The element at a position.
    pub fn get(&self, i: usize) -> (s: Scalar)
        requires
            i < self.elements().len(),
        ensures
            s == self.elements()[i as int],
    {
        match self {
            Vector::Bool(v) => Scalar::Bool(v[i]),
            Vector::U8(v) => Scalar::U8(v[i]),
            Vector::U16(v) => Scalar::U16(v[i]),
            Vector::U32(v) => Scalar::U32(v[i]),
            Vector::U64(v) => Scalar::U64(v[i]),
            Vector::I8(v) => Scalar::I8(v[i]),
            Vector::I16(v) => Scalar::I16(v[i]),
            Vector::I32(v) => Scalar::I32(v[i]),
            Vector::I64(v) => Scalar::I64(v[i]),
            Vector::F32(v) => Scalar::F32(v[i]),
            Vector::F64(v) => Scalar::F64(v[i]),
        }
    }
}


/// A copy of a vector of values that are copied by assignment.
pub fn copy_vec<A: Copy>(v: &Vec<A>) -> (r: Vec<A>)
    ensures
        r@ == v@,
{
    let mut r: Vec<A> = Vec::new();
    let mut i: usize = 0;
    while i < v.len()
        invariant
            i <= v.len(),
            r@ == v@.take(i as int),
        decreases v.len() - i,
    {
        r.push(v[i]);
        assert(r@ =~= v@.take(i + 1));
        i += 1;
    }
    assert(v@.take(v.len() as int) =~= v@);
    r
}

/// A copy of a vector of texts.
pub fn copy_texts(v: &Vec<String>) -> (r: Vec<String>)
    ensures
        texts(r@) == texts(v@),
{
    let mut r: Vec<String> = Vec::new();
    let mut i: usize = 0;
    while i < v.len()
        invariant
            i <= v.len(),
            r@.len() == i,
            forall|j: int| 0 <= j < i ==> r@[j]@ == v@[j]@,
        decreases v.len() - i,
    {
        r.push(v[i].clone());
        i += 1;
    }
    assert(texts(r@) =~= texts(v@));
    r
}

/// The contents of a sequence of texts.
pub open spec fn texts(v: Seq<String>) -> Seq<Seq<char>> {
    Seq::new(v.len(), |i: int| v[i]@)
}

impl Vector {
    /// A copy of the vector.
    pub fn duplicate(&self) -> (r: Vector)
        ensures
            r.atom() == self.atom(),
            r.elements() == self.elements(),
    {
        match self {
            Vector::Bool(v) => Vector::Bool(copy_vec(v)),
            Vector::U8(v) => Vector::U8(copy_vec(v)),
            Vector::U16(v) => Vector::U16(copy_vec(v)),
            Vector::U32(v) => Vector::U32(copy_vec(v)),
            Vector::U64(v) => Vector::U64(copy_vec(v)),
            Vector::I8(v) => Vector::I8(copy_vec(v)),
            Vector::I16(v) => Vector::I16(copy_vec(v)),
            Vector::I32(v) => Vector::I32(copy_vec(v)),
            Vector::I64(v) => Vector::I64(copy_vec(v)),
            Vector::F32(v) => Vector::F32(copy_vec(v)),
            Vector::F64(v) => Vector::F64(copy_vec(v)),
        }
    }

    /// Whether the two vectors hold values of one type, as many of them, and
    /// equal ones at each position.
    pub fn native_eq(&self, other: &Vector) -> (r: bool)
        ensures
            r == ValueView::Vector(self.atom(), self.elements()).same(
                ValueView::Vector(other.atom(), other.elements()),
            ),
    {
        if self.atom_of() != other.atom_of() {
            return false;
        }
        if self.len() != other.len() {
            return false;
        }
        let mut i: usize = 0;
        while i < self.len()
            invariant
                i <= self.elements().len(),
                self.elements().len() == other.elements().len(),
                forall|j: int| 0 <= j < i ==> self.elements()[j].same(other.elements()[j]),
            decreases self.elements().len() - i,
        {
            if !self.get(i).native_eq(&other.get(i)) {
                return false;
            }
            i += 1;
        }
        true
    }
}

impl DomainValue {
    /// The shape of the domain.
    pub open spec fn kind(self) -> DomainKind {
        match self {
            DomainValue::All(_) => DomainKind::All,
            DomainValue::Bounded(_) => DomainKind::Bounded,
            DomainValue::VectorAll(_) => DomainKind::VectorAll,
            DomainValue::VectorBounded(_) => DomainKind::VectorBounded,
            DomainValue::SizedVectorAll(_, _) => DomainKind::SizedVectorAll,
            DomainValue::SizedVectorBounded(_, _) => DomainKind::SizedVectorBounded,
            DomainValue::InherentNull(_) => DomainKind::InherentNull,
            DomainValue::VectorInherentNull(_) => DomainKind::VectorInherentNull,
            DomainValue::DataFrame => DomainKind::DataFrame,
        }
    }

    /// The atomic type that the domain is over.
    pub open spec fn atom(self) -> Atom {
        match self {
            DomainValue::All(a) => a,
            DomainValue::Bounded(p) => p.atom(),
            DomainValue::VectorAll(a) => a,
            DomainValue::VectorBounded(p) => p.atom(),
            DomainValue::SizedVectorAll(a, _) => a,
            DomainValue::SizedVectorBounded(p, _) => p.atom(),
            DomainValue::InherentNull(a) => a,
            DomainValue::VectorInherentNull(a) => a,
            DomainValue::DataFrame => Atom::String,
        }
    }

    /// The type of the values that the domain holds.
    pub open spec fn carrier(self) -> Type {
        self.kind().carrier(self.atom())
    }

    /// Equality of two domains: the same shape over the same atomic type,
    /// with equal bounds.
    pub open spec fn same(self, other: DomainValue) -> bool {
        match (self, other) {
            (DomainValue::All(a), DomainValue::All(b)) => a == b,
            (DomainValue::Bounded(p), DomainValue::Bounded(q)) => p.first().same(q.first()) && p.second().same(
                q.second(),
            ),
            (DomainValue::VectorAll(a), DomainValue::VectorAll(b)) => a == b,
            (DomainValue::VectorBounded(p), DomainValue::VectorBounded(q)) => p.first().same(q.first())
                && p.second().same(q.second()),
            (DomainValue::SizedVectorAll(a, m), DomainValue::SizedVectorAll(b, n)) => a == b && m == n,
            (DomainValue::SizedVectorBounded(p, m), DomainValue::SizedVectorBounded(q, n)) => p.first().same(
                q.first(),
            ) && p.second().same(q.second()) && m == n,
            (DomainValue::InherentNull(a), DomainValue::InherentNull(b)) => a == b,
            (DomainValue::VectorInherentNull(a), DomainValue::VectorInherentNull(b)) => a == b,
            (DomainValue::DataFrame, DomainValue::DataFrame) => true,
            _ => false,
        }
    }

    /// The shape of the domain.
    pub fn kind_of(&self) -> (k: DomainKind)
        ensures
            k == self.kind(),
    {
        match self {
            DomainValue::All(_) => DomainKind::All,
            DomainValue::Bounded(_) => DomainKind::Bounded,
            DomainValue::VectorAll(_) => DomainKind::VectorAll,
            DomainValue::VectorBounded(_) => DomainKind::VectorBounded,
            DomainValue::SizedVectorAll(_, _) => DomainKind::SizedVectorAll,
            DomainValue::SizedVectorBounded(_, _) => DomainKind::SizedVectorBounded,
            DomainValue::InherentNull(_) => DomainKind::InherentNull,
            DomainValue::VectorInherentNull(_) => DomainKind::VectorInherentNull,
            DomainValue::DataFrame => DomainKind::DataFrame,
        }
    }

    /// The atomic type.
    pub fn atom_of(&self) -> (a: Atom)
        ensures
            a == self.atom(),
    {
        match self {
            DomainValue::All(a) => *a,
            DomainValue::Bounded(p) => p.lower().atom_of(),
            DomainValue::VectorAll(a) => *a,
            DomainValue::VectorBounded(p) => p.lower().atom_of(),
            DomainValue::SizedVectorAll(a, _) => *a,
            DomainValue::SizedVectorBounded(p, _) => p.lower().atom_of(),
            DomainValue::InherentNull(a) => *a,
            DomainValue::VectorInherentNull(a) => *a,
            DomainValue::DataFrame => Atom::String,
        }
    }

    /// Whether the two domains are equal.
    pub fn native_eq(&self, other: &DomainValue) -> (r: bool)
        ensures
            r == self.same(*other),
    {
        match (self, other) {
            (DomainValue::All(a), DomainValue::All(b)) => *a == *b,
            (DomainValue::Bounded(p), DomainValue::Bounded(q)) => p.lower().native_eq(&q.lower())
                && p.upper().native_eq(&q.upper()),
            (DomainValue::VectorAll(a), DomainValue::VectorAll(b)) => *a == *b,
            (DomainValue::VectorBounded(p), DomainValue::VectorBounded(q)) => p.lower().native_eq(&q.lower())
                && p.upper().native_eq(&q.upper()),
            (DomainValue::SizedVectorAll(a, m), DomainValue::SizedVectorAll(b, n)) => *a == *b && *m == *n,
            (DomainValue::SizedVectorBounded(p, m), DomainValue::SizedVectorBounded(q, n)) => p.lower().native_eq(
                &q.lower(),
            ) && p.upper().native_eq(&q.upper()) && *m == *n,
            (DomainValue::InherentNull(a), DomainValue::InherentNull(b)) => *a == *b,
            (DomainValue::VectorInherentNull(a), DomainValue::VectorInherentNull(b)) => *a == *b,
            (DomainValue::DataFrame, DomainValue::DataFrame) => true,
            _ => false,
        }
    }
}

impl ValueView {
    /// The tag of the type of which this is a value.
    pub open spec fn type_tag(self) -> Type {
        match self {
            ValueView::Scalar(s) => Type::Atom(s.atom()),
            ValueView::Pair(a, _) => Type::Pair(a.atom()),
            ValueView::Vector(a, _) => Type::Vector(a),
            ValueView::Text(_) => Type::Atom(Atom::String),
            ValueView::TextVector(_) => Type::Vector(Atom::String),
            ValueView::DataFrame(_) => Type::DataFrame,
            ValueView::Domain(d) => Type::Domain(d.kind(), d.atom()),
            ValueView::Metric(m) => Type::Metric(m),
            ValueView::Measure(m) => Type::Measure(m),
        }
    }

    /// Equality as the type of the two values defines it. Values of different
    /// types are not equal.
    pub open spec fn same(self, other: ValueView) -> bool {
        match (self, other) {
            (ValueView::Scalar(a), ValueView::Scalar(b)) => a.same(b),
            (ValueView::Pair(a0, a1), ValueView::Pair(b0, b1)) => a0.same(b0) && a1.same(b1),
            (ValueView::Vector(a, s), ValueView::Vector(b, t)) => a == b && s.len() == t.len() && forall|i: int|
                0 <= i < s.len() ==> (#[trigger] s[i]).same(t[i]),
            (ValueView::Text(a), ValueView::Text(b)) => a == b,
            (ValueView::TextVector(a), ValueView::TextVector(b)) => a == b,
            (ValueView::DataFrame(a), ValueView::DataFrame(b)) => frames_equal(a, b),
            (ValueView::Domain(a), ValueView::Domain(b)) => a.same(b),
            (ValueView::Metric(a), ValueView::Metric(b)) => a == b,
            (ValueView::Measure(a), ValueView::Measure(b)) => a == b,
            _ => false,
        }
    }

    /// Whether the value equals itself: it holds no NaN.
    pub open spec fn reflexive(self) -> bool {
        self.same(self)
    }
}

impl View for Value {
    type V = ValueView;

    open spec fn view(&self) -> ValueView {
        match self {
            Value::Scalar(s) => ValueView::Scalar(*s),
            Value::Pair(p) => ValueView::Pair(p.first(), p.second()),
            Value::Vector(v) => ValueView::Vector(v.atom(), v.elements()),
            Value::Text(s) => ValueView::Text(s@),
            Value::TextVector(v) => ValueView::TextVector(texts(v@)),
            Value::DataFrame(f) => ValueView::DataFrame(f@),
            Value::Domain(d) => ValueView::Domain(*d),
            Value::Metric(m) => ValueView::Metric(*m),
            Value::Measure(m) => ValueView::Measure(*m),
        }
    }
}

/// Whether two vectors of texts hold the same texts.
pub fn texts_eq(a: &Vec<String>, b: &Vec<String>) -> (r: bool)
    ensures
        r == (texts(a@) == texts(b@)),
{
    if a.len() != b.len() {
        assert(texts(a@).len() != texts(b@).len());
        return false;
    }
    let mut i: usize = 0;
    while i < a.len()
        invariant
            i <= a.len(),
            a.len() == b.len(),
            forall|j: int| 0 <= j < i ==> a@[j]@ == b@[j]@,
        decreases a.len() - i,
    {
        if a[i] != b[i] {
            assert(texts(a@)[i as int] != texts(b@)[i as int]);
            return false;
        }
        i += 1;
    }
    assert(texts(a@) =~= texts(b@));
    true
}

impl Value {
    /// The tag of the value's type.
    pub fn type_of(&self) -> (t: Type)
        ensures
            t == self@.type_tag(),
    {
        match self {
            Value::Scalar(s) => Type::Atom(s.atom_of()),
            Value::Pair(p) => Type::Pair(p.lower().atom_of()),
            Value::Vector(v) => Type::Vector(v.atom_of()),
            Value::Text(_) => Type::Atom(Atom::String),
            Value::TextVector(_) => Type::Vector(Atom::String),
            Value::DataFrame(_) => Type::DataFrame,
            Value::Domain(d) => Type::Domain(d.kind_of(), d.atom_of()),
            Value::Metric(m) => Type::Metric(*m),
            Value::Measure(m) => Type::Measure(*m),
        }
    }

    /// A second owner's copy of the value.
    pub fn duplicate(&self) -> (r: Value)
        ensures
            r@ == self@,
    {
        match self {
            Value::Scalar(s) => Value::Scalar(*s),
            Value::Pair(p) => Value::Pair(*p),
            Value::Vector(v) => Value::Vector(v.duplicate()),
            Value::Text(s) => Value::Text(s.clone()),
            Value::TextVector(v) => Value::TextVector(copy_texts(v)),
            Value::DataFrame(f) => Value::DataFrame(f.clone()),
            Value::Domain(d) => Value::Domain(*d),
            Value::Metric(m) => Value::Metric(*m),
            Value::Measure(m) => Value::Measure(*m),
        }
    }

    /// Equality as the type of the two values defines it.
    pub fn native_eq(&self, other: &Value) -> (r: bool)
        ensures
            r == self@.same(other@),
    {
        match (self, other) {
            (Value::Scalar(a), Value::Scalar(b)) => a.native_eq(b),
            (Value::Pair(a), Value::Pair(b)) => a.lower().native_eq(&b.lower()) && a.upper().native_eq(&b.upper()),
            (Value::Vector(a), Value::Vector(b)) => a.native_eq(b),
            (Value::Text(a), Value::Text(b)) => *a == *b,
            (Value::TextVector(a), Value::TextVector(b)) => texts_eq(a, b),
            (Value::DataFrame(a), Value::DataFrame(b)) => frames_eq(a, b),
            (Value::Domain(a), Value::Domain(b)) => a.native_eq(b),
            (Value::Metric(a), Value::Metric(b)) => *a == *b,
            (Value::Measure(a), Value::Measure(b)) => *a == *b,
            _ => false,
        }
    }
}


/// The order of two pairs: that of their first values, and where these are
/// equal that of their second.
pub open spec fn pair_order(first: Option<Order>, second: Option<Order>) -> Option<Order> {
    if first == Some(Order::Equal) {
        second
    } else {
        first
    }
}

/// The order of two lengths, each less the number of values that were found
/// equal at the front.
pub open spec fn rest_order(a: int, b: int) -> Order {
    if a < b {
        Order::Less
    } else if a == b {
        Order::Equal
    } else {
        Order::Greater
    }
}

/// The order of two sequences of values from a position on: that of the first
/// values that are not equal; that of the lengths where one runs out.
pub open spec fn sequence_order(a: Seq<Scalar>, b: Seq<Scalar>, from: nat) -> Option<Order>
    decreases a.len() - from,
{
    if from >= a.len() || from >= b.len() {
        Some(rest_order(a.len() as int, b.len() as int))
    } else if a[from as int].ordered(b[from as int]) == Some(Order::Equal) {
        sequence_order(a, b, from + 1)
    } else {
        a[from as int].ordered(b[from as int])
    }
}

/// The order of two texts from a position on: that of the first characters
/// that differ, by their code points; that of the lengths where one runs out.
pub open spec fn text_order(a: Seq<char>, b: Seq<char>, from: nat) -> Order
    decreases a.len() - from,
{
    if from >= a.len() || from >= b.len() {
        rest_order(a.len() as int, b.len() as int)
    } else if a[from as int] == b[from as int] {
        text_order(a, b, from + 1)
    } else if (a[from as int] as u32) < (b[from as int] as u32) {
        Order::Less
    } else {
        Order::Greater
    }
}

/// The order of two sequences of texts from a position on: that of the first
/// texts that differ; that of the lengths where one runs out.
pub open spec fn texts_order(a: Seq<Seq<char>>, b: Seq<Seq<char>>, from: nat) -> Order
    decreases a.len() - from,
{
    if from >= a.len() || from >= b.len() {
        rest_order(a.len() as int, b.len() as int)
    } else if text_order(a[from as int], b[from as int], 0) == Order::Equal {
        texts_order(a, b, from + 1)
    } else {
        text_order(a[from as int], b[from as int], 0)
    }
}

fn order_lengths(a: usize, b: usize) -> (r: Order)
    ensures
        r == rest_order(a as int, b as int),
{
    if a < b {
        Order::Less
    } else if a == b {
        Order::Equal
    } else {
        Order::Greater
    }
}

/// The order of two texts: that of the first characters that differ, by
/// their code points; the shorter first where one begins the other.
pub fn order_texts(a: &str, b: &str) -> (r: Order)
    ensures
        r == text_order(a@, b@, 0),
{
    let m = a.unicode_len();
    let n = b.unicode_len();
    let mut i: usize = 0;
    while i < m && i < n
        invariant
            m == a@.len(),
            n == b@.len(),
            i <= m,
            i <= n,
            text_order(a@, b@, 0) == text_order(a@, b@, i as nat),
        decreases m - i,
    {
        let c = a.get_char(i);
        let d = b.get_char(i);
        if c != d {
            return if (c as u32) < (d as u32) {
                Order::Less
            } else {
                Order::Greater
            };
        }
        i += 1;
    }
    order_lengths(m, n)
}

/// The order of two vectors of texts: that of the first texts that differ;
/// the shorter first where one begins the other.
pub fn order_text_vectors(a: &Vec<String>, b: &Vec<String>) -> (r: Order)
    ensures
        r == texts_order(texts(a@), texts(b@), 0),
{
    let mut i: usize = 0;
    while i < a.len() && i < b.len()
        invariant
            i <= a.len(),
            i <= b.len(),
            texts_order(texts(a@), texts(b@), 0) == texts_order(texts(a@), texts(b@), i as nat),
        decreases a.len() - i,
    {
        let o = order_texts(a[i].as_str(), b[i].as_str());
        assert(texts(a@)[i as int] == a@[i as int]@ && texts(b@)[i as int] == b@[i as int]@);
        match o {
            Order::Equal => {},
            _ => {
                return o;
            },
        }
        i += 1;
    }
    order_lengths(a.len(), b.len())
}

impl Vector {
    /// The order of two vectors of one atomic type: that of the first
    /// elements that are not equal; the shorter first where one begins the
    /// other. Vectors of different types are not ordered.
    pub fn compare(&self, other: &Vector) -> (r: Option<Order>)
        ensures
            r == ValueView::Vector(self.atom(), self.elements()).ordered(
                ValueView::Vector(other.atom(), other.elements()),
            ),
    {
        if self.atom_of() != other.atom_of() {
            return None;
        }
        let m = self.len();
        let n = other.len();
        let mut i: usize = 0;
        while i < m && i < n
            invariant
                m == self.elements().len(),
                n == other.elements().len(),
                i <= m,
                i <= n,
                sequence_order(self.elements(), other.elements(), 0) == sequence_order(
                    self.elements(),
                    other.elements(),
                    i as nat,
                ),
            decreases m - i,
        {
            let o = self.get(i).compare(&other.get(i));
            match o {
                Some(Order::Equal) => {},
                _ => {
                    return o;
                },
            }
            i += 1;
        }
        Some(order_lengths(m, n))
    }
}

impl ValueView {
    /// The order in which the type of two values puts them: numbers by their
    /// size; pairs by their first value and then their second; vectors by the
    /// first elements that are not equal, and texts by the first characters
    /// that differ, the shorter first where one begins the other. Values of
    /// different types are not ordered, nor are values of types without an
    /// order: data frames, domains, metrics and measures.
    pub open spec fn ordered(self, other: ValueView) -> Option<Order> {
        match (self, other) {
            (ValueView::Scalar(a), ValueView::Scalar(b)) => a.ordered(b),
            (ValueView::Pair(a0, a1), ValueView::Pair(b0, b1)) => pair_order(a0.ordered(b0), a1.ordered(b1)),
            (ValueView::Vector(x, s), ValueView::Vector(y, t)) => if x == y {
                sequence_order(s, t, 0)
            } else {
                None
            },
            (ValueView::Text(a), ValueView::Text(b)) => Some(text_order(a, b, 0)),
            (ValueView::TextVector(a), ValueView::TextVector(b)) => Some(texts_order(a, b, 0)),
            _ => None,
        }
    }
}

impl Value {
    /// The order in which the type of the two values puts them.
    pub fn compare(&self, other: &Value) -> (r: Option<Order>)
        ensures
            r == self@.ordered(other@),
    {
        match (self, other) {
            (Value::Scalar(a), Value::Scalar(b)) => a.compare(b),
            (Value::Pair(a), Value::Pair(b)) => {
                match a.lower().compare(&b.lower()) {
                    Some(Order::Equal) => a.upper().compare(&b.upper()),
                    first => first,
                }
            },
            (Value::Vector(a), Value::Vector(b)) => a.compare(b),
            (Value::Text(a), Value::Text(b)) => Some(order_texts(a.as_str(), b.as_str())),
            (Value::TextVector(a), Value::TextVector(b)) => Some(order_text_vectors(a, b)),
            _ => None,
        }
    }
}

} // verus!
