//! Runtime type tags and their textual descriptors.
use vstd::prelude::*;
use vstd::string::*;
use opendp::error::{ErrorVariant, Fallible};
use crate::error::{fails, failure};

verus! {

/// The atomic types that can be carried.
#[derive(Clone, Copy, Debug, PartialEq, Eq, Structural)]
pub enum Atom {
    Bool,
    U8,
    U16,
    U32,
    U64,
    I8,
    I16,
    I32,
    I64,
    F32,
    F64,
    String,
}

/// The shapes of domain that can be carried.
#[derive(Clone, Copy, Debug, PartialEq, Eq, Structural)]
pub enum DomainKind {
    All,
    Bounded,
    VectorAll,
    VectorBounded,
    SizedVectorAll,
    SizedVectorBounded,
    InherentNull,
    VectorInherentNull,
    DataFrame,
}

/// The metrics that can be carried.
#[derive(Clone, Copy, Debug, PartialEq, Eq, Structural)]
pub enum MetricKind {
    Symmetric,
    Substitute,
    Absolute(Atom),
    L1(Atom),
    L2(Atom),
}

/// The measures that can be carried.
#[derive(Clone, Copy, Debug, PartialEq, Eq, Structural)]
pub enum MeasureKind {
    MaxDivergence(Atom),
    SmoothedMaxDivergence(Atom),
}

/// A tag that names one concrete type.
#[derive(Clone, Copy, Debug, PartialEq, Eq, Structural)]
pub enum Type {
    /// `T`
    Atom(Atom),
    /// `(T, T)`
    Pair(Atom),
    /// `Vec<T>`
    Vector(Atom),
    /// A data frame: columns under names that are texts.
    DataFrame,
    /// A domain over `T`.
    Domain(DomainKind, Atom),
    Metric(MetricKind),
    Measure(MeasureKind),
}

impl Atom {
    /// The name of the atomic type.
    pub open spec fn name(self) -> Seq<char> {
        match self {
            Atom::Bool => "bool"@,
            Atom::U8 => "u8"@,
            Atom::U16 => "u16"@,
            Atom::U32 => "u32"@,
            Atom::U64 => "u64"@,
            Atom::I8 => "i8"@,
            Atom::I16 => "i16"@,
            Atom::I32 => "i32"@,
            Atom::I64 => "i64"@,
            Atom::F32 => "f32"@,
            Atom::F64 => "f64"@,
            Atom::String => "String"@,
        }
    }

    /// The name as text.
    pub fn name_str(self) -> (s: &'static str)
        ensures
            s@ == self.name(),
    {
        match self {
            Atom::Bool => "bool",
            Atom::U8 => "u8",
            Atom::U16 => "u16",
            Atom::U32 => "u32",
            Atom::U64 => "u64",
            Atom::I8 => "i8",
            Atom::I16 => "i16",
            Atom::I32 => "i32",
            Atom::I64 => "i64",
            Atom::F32 => "f32",
            Atom::F64 => "f64",
            Atom::String => "String",
        }
    }

    /// Whether the atomic type belongs to the numeric family.
    pub open spec fn numeric(self) -> bool {
        self != Atom::Bool && self != Atom::String
    }

    /// Whether the atomic type belongs to the numeric family.
    pub fn is_numeric(self) -> (r: bool)
        ensures
            r == self.numeric(),
    {
        match self {
            Atom::Bool => false,
            Atom::String => false,
            _ => true,
        }
    }

    /// Whether the atomic type is a floating-point type.
    pub open spec fn floating(self) -> bool {
        self == Atom::F32 || self == Atom::F64
    }

    /// Whether the atomic type is a floating-point type.
    pub fn is_floating(self) -> (r: bool)
        ensures
            r == self.floating(),
    {
        match self {
            Atom::F32 => true,
            Atom::F64 => true,
            _ => false,
        }
    }

    /// The position of the atomic type in the list of all of them.
    pub open spec fn index(self) -> int {
        match self {
            Atom::Bool => 0,
            Atom::U8 => 1,
            Atom::U16 => 2,
            Atom::U32 => 3,
            Atom::U64 => 4,
            Atom::I8 => 5,
            Atom::I16 => 6,
            Atom::I32 => 7,
            Atom::I64 => 8,
            Atom::F32 => 9,
            Atom::F64 => 10,
            Atom::String => 11,
        }
    }

    /// The atomic type at a position of the list.
    pub(crate) fn at(i: usize) -> (a: Atom)
        requires
            i < 12,
        ensures
            a.index() == i,
    {
        if i == 0 {
            Atom::Bool
        } else if i == 1 {
            Atom::U8
        } else if i == 2 {
            Atom::U16
        } else if i == 3 {
            Atom::U32
        } else if i == 4 {
            Atom::U64
        } else if i == 5 {
            Atom::I8
        } else if i == 6 {
            Atom::I16
        } else if i == 7 {
            Atom::I32
        } else if i == 8 {
            Atom::I64
        } else if i == 9 {
            Atom::F32
        } else if i == 10 {
            Atom::F64
        } else {
            Atom::String
        }
    }
}

impl DomainKind {
    /// What stands before the atomic type in the descriptor of a domain.
    pub open spec fn opening(self) -> Seq<char> {
        match self {
            DomainKind::All => "AllDomain<"@,
            DomainKind::Bounded => "BoundedDomain<"@,
            DomainKind::VectorAll => "VectorDomain<AllDomain<"@,
            DomainKind::VectorBounded => "VectorDomain<BoundedDomain<"@,
            DomainKind::SizedVectorAll => "SizedDomain<VectorDomain<AllDomain<"@,
            DomainKind::SizedVectorBounded => "SizedDomain<VectorDomain<BoundedDomain<"@,
            DomainKind::InherentNull => "InherentNullDomain<AllDomain<"@,
            DomainKind::VectorInherentNull => "VectorDomain<InherentNullDomain<AllDomain<"@,
            DomainKind::DataFrame => "DataFrameDomain<"@,
        }
    }

    /// What stands behind the atomic type in the descriptor of a domain.
    pub open spec fn closing(self) -> Seq<char> {
        match self {
            DomainKind::All => ">"@,
            DomainKind::Bounded => ">"@,
            DomainKind::VectorAll => ">>"@,
            DomainKind::VectorBounded => ">>"@,
            DomainKind::SizedVectorAll => ">>>"@,
            DomainKind::SizedVectorBounded => ">>>"@,
            DomainKind::InherentNull => ">>"@,
            DomainKind::VectorInherentNull => ">>>"@,
            DomainKind::DataFrame => ">"@,
        }
    }

    /// What stands before the atomic type in the descriptor of a domain.
    pub fn opening_str(self) -> (s: &'static str)
        ensures
            s@ == self.opening(),
    {
        match self {
            DomainKind::All => "AllDomain<",
            DomainKind::Bounded => "BoundedDomain<",
            DomainKind::VectorAll => "VectorDomain<AllDomain<",
            DomainKind::VectorBounded => "VectorDomain<BoundedDomain<",
            DomainKind::SizedVectorAll => "SizedDomain<VectorDomain<AllDomain<",
            DomainKind::SizedVectorBounded => "SizedDomain<VectorDomain<BoundedDomain<",
            DomainKind::InherentNull => "InherentNullDomain<AllDomain<",
            DomainKind::VectorInherentNull => "VectorDomain<InherentNullDomain<AllDomain<",
            DomainKind::DataFrame => "DataFrameDomain<",
        }
    }

    /// What stands behind the atomic type in the descriptor of a domain.
    pub fn closing_str(self) -> (s: &'static str)
        ensures
            s@ == self.closing(),
    {
        match self {
            DomainKind::All => ">",
            DomainKind::Bounded => ">",
            DomainKind::VectorAll => ">>",
            DomainKind::VectorBounded => ">>",
            DomainKind::SizedVectorAll => ">>>",
            DomainKind::SizedVectorBounded => ">>>",
            DomainKind::InherentNull => ">>",
            DomainKind::VectorInherentNull => ">>>",
            DomainKind::DataFrame => ">",
        }
    }

    /// The type of the values that a domain of this shape over `atom` holds.
    pub open spec fn carrier(self, atom: Atom) -> Type {
        match self {
            DomainKind::All => Type::Atom(atom),
            DomainKind::Bounded => Type::Atom(atom),
            DomainKind::VectorAll => Type::Vector(atom),
            DomainKind::VectorBounded => Type::Vector(atom),
            DomainKind::SizedVectorAll => Type::Vector(atom),
            DomainKind::SizedVectorBounded => Type::Vector(atom),
            DomainKind::InherentNull => Type::Atom(atom),
            DomainKind::VectorInherentNull => Type::Vector(atom),
            DomainKind::DataFrame => Type::DataFrame,
        }
    }

    /// The type of the values that a domain of this shape over `atom` holds.
    pub fn carrier_of(self, atom: Atom) -> (t: Type)
        ensures
            t == self.carrier(atom),
    {
        match self {
            DomainKind::All => Type::Atom(atom),
            DomainKind::Bounded => Type::Atom(atom),
            DomainKind::VectorAll => Type::Vector(atom),
            DomainKind::VectorBounded => Type::Vector(atom),
            DomainKind::SizedVectorAll => Type::Vector(atom),
            DomainKind::SizedVectorBounded => Type::Vector(atom),
            DomainKind::InherentNull => Type::Atom(atom),
            DomainKind::VectorInherentNull => Type::Vector(atom),
            DomainKind::DataFrame => Type::DataFrame,
        }
    }
}

impl MetricKind {
    /// The type in which the metric measures distances.
    pub open spec fn distance(self) -> Type {
        match self {
            MetricKind::Symmetric => Type::Atom(Atom::U32),
            MetricKind::Substitute => Type::Atom(Atom::U32),
            MetricKind::Absolute(a) => Type::Atom(a),
            MetricKind::L1(a) => Type::Atom(a),
            MetricKind::L2(a) => Type::Atom(a),
        }
    }

    /// The type of the distances.
    pub fn distance_of(self) -> (t: Type)
        ensures
            t == self.distance(),
    {
        match self {
            MetricKind::Symmetric => Type::Atom(Atom::U32),
            MetricKind::Substitute => Type::Atom(Atom::U32),
            MetricKind::Absolute(a) => Type::Atom(a),
            MetricKind::L1(a) => Type::Atom(a),
            MetricKind::L2(a) => Type::Atom(a),
        }
    }

    /// The text that names the metric's type.
    pub open spec fn descriptor(self) -> Seq<char> {
        match self {
            MetricKind::Symmetric => "SymmetricDistance"@,
            MetricKind::Substitute => "SubstituteDistance"@,
            MetricKind::Absolute(a) => "AbsoluteDistance<"@ + a.name() + ">"@,
            MetricKind::L1(a) => "L1Distance<"@ + a.name() + ">"@,
            MetricKind::L2(a) => "L2Distance<"@ + a.name() + ">"@,
        }
    }

    /// The text that names the type.
    pub fn to_string(self) -> (s: String)
        ensures
            s@ == self.descriptor(),
    {
        match self {
            MetricKind::Symmetric => String::from_str("SymmetricDistance"),
            MetricKind::Substitute => String::from_str("SubstituteDistance"),
            MetricKind::Absolute(a) => String::from_str("AbsoluteDistance<").concat(a.name_str()).concat(">"),
            MetricKind::L1(a) => String::from_str("L1Distance<").concat(a.name_str()).concat(">"),
            MetricKind::L2(a) => String::from_str("L2Distance<").concat(a.name_str()).concat(">"),
        }
    }
}

impl MeasureKind {
    /// The type in which the measure measures distances.
    pub open spec fn distance(self) -> Type {
        match self {
            MeasureKind::MaxDivergence(a) => Type::Atom(a),
            MeasureKind::SmoothedMaxDivergence(a) => Type::Pair(a),
        }
    }

    /// The type of the distances.
    pub fn distance_of(self) -> (t: Type)
        ensures
            t == self.distance(),
    {
        match self {
            MeasureKind::MaxDivergence(a) => Type::Atom(a),
            MeasureKind::SmoothedMaxDivergence(a) => Type::Pair(a),
        }
    }

    /// The text that names the measure's type.
    pub open spec fn descriptor(self) -> Seq<char> {
        match self {
            MeasureKind::MaxDivergence(a) => "MaxDivergence<"@ + a.name() + ">"@,
            MeasureKind::SmoothedMaxDivergence(a) => "SmoothedMaxDivergence<"@ + a.name() + ">"@,
        }
    }

    /// The text that names the type.
    pub fn to_string(self) -> (s: String)
        ensures
            s@ == self.descriptor(),
    {
        match self {
            MeasureKind::MaxDivergence(a) => String::from_str("MaxDivergence<").concat(a.name_str()).concat(">"),
            MeasureKind::SmoothedMaxDivergence(a) => String::from_str("SmoothedMaxDivergence<").concat(
                a.name_str(),
            ).concat(">"),
        }
    }
}

impl Type {
    /// The text that names the type.
    pub open spec fn descriptor(self) -> Seq<char> {
        match self {
            Type::Atom(a) => a.name(),
            Type::Pair(a) => "("@ + a.name() + ", "@ + a.name() + ")"@,
            Type::Vector(a) => "Vec<"@ + a.name() + ">"@,
            Type::DataFrame => "DataFrame<String>"@,
            Type::Domain(k, a) => k.opening() + a.name() + k.closing(),
            Type::Metric(m) => m.descriptor(),
            Type::Measure(m) => m.descriptor(),
        }
    }

    /// The text that names the type.
    pub fn to_string(&self) -> (s: String)
        ensures
            s@ == self.descriptor(),
    {
        match *self {
            Type::Atom(a) => String::from_str(a.name_str()),
            Type::Pair(a) => String::from_str("(").concat(a.name_str()).concat(", ").concat(a.name_str()).concat(
                ")",
            ),
            Type::Vector(a) => String::from_str("Vec<").concat(a.name_str()).concat(">"),
            Type::DataFrame => String::from_str("DataFrame<String>"),
            Type::Domain(k, a) => String::from_str(k.opening_str()).concat(a.name_str()).concat(k.closing_str()),
            Type::Metric(m) => m.to_string(),
            Type::Measure(m) => m.to_string(),
        }
    }

    /// Whether the type is one of plain values: an atomic type, a pair or a
    /// vector of one.
    pub open spec fn plain(self) -> bool {
        self is Atom || self is Pair || self is Vector
    }

    /// The atomic type of a numeric tag; none for every other tag.
    pub open spec fn number(self) -> Option<Atom> {
        match self {
            Type::Atom(a) => if a.numeric() { Some(a) } else { None },
            _ => None,
        }
    }
}

impl Type {
    /// Resolves a textual tag to the plain type that it names. A text that
    /// names no plain type is refused as a parse error.
    pub fn try_from(tag: &str) -> (r: Fallible<Type>)
        ensures
            match r {
                Ok(t) => t.plain() && t.descriptor() == tag@,
                Err(e) => fails(r, ErrorVariant::TypeParse, "the text names no type that can be carried"@)
                    && forall|t: Type| t.plain() ==> t.descriptor() != tag@,
            },
    {
        let text = String::from_str(tag);
        let mut i: usize = 0;
        while i < 12
            invariant
                i <= 12,
                text@ == tag@,
                forall|a: Atom|
                    a.index() < i ==> Type::Atom(a).descriptor() != tag@ && Type::Pair(a).descriptor() != tag@
                        && Type::Vector(a).descriptor() != tag@,
            decreases 12 - i,
        {
            let a = Atom::at(i);
            if Type::Atom(a).to_string() == text {
                return Ok(Type::Atom(a));
            }
            if Type::Pair(a).to_string() == text {
                return Ok(Type::Pair(a));
            }
            if Type::Vector(a).to_string() == text {
                return Ok(Type::Vector(a));
            }
            assert forall|b: Atom| b.index() < i + 1 implies Type::Atom(b).descriptor() != tag@ && Type::Pair(
                b,
            ).descriptor() != tag@ && Type::Vector(b).descriptor() != tag@ by {
                if b.index() == i {
                    assert(b == a);
                }
            }
            i += 1;
        }
        assert forall|t: Type| t.plain() implies t.descriptor() != tag@ by {
            match t {
                Type::Atom(a) => {
                    assert(a.index() < 12);
                },
                Type::Pair(a) => {
                    assert(a.index() < 12);
                },
                Type::Vector(a) => {
                    assert(a.index() < 12);
                },
                _ => {},
            }
        }
        Err(failure(ErrorVariant::TypeParse, "the text names no type that can be carried"))
    }
}

} // verus!
