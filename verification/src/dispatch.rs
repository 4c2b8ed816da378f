//! From the textual tag of a numeric type to the one instantiation of a
//! generic constructor that the tag selects.
use vstd::prelude::*;
use vstd::string::*;
use opendp::error::{Error, ErrorVariant, Fallible};
use crate::error::{fails, failure};
use crate::util::{Atom, Type};

verus! {

/// Whether the tag names a member of the numeric family.
pub open spec fn in_family(tag: Seq<char>) -> bool {
    exists|a: Atom| a.numeric() && a.name() == tag
}

/// What the parse error for a tag outside the numeric family says: that the
/// tag names another type, or that it names none.
pub open spec fn outside_family(tag: Seq<char>) -> Seq<char> {
    if exists|t: Type| t.plain() && t.descriptor() == tag {
        "no instantiation for a type that is not numeric"@
    } else {
        "the text names no type that can be carried"@
    }
}

/// Whether `r` is what the numeric family makes of a tag: the member that
/// the tag names, or a parse error where it names none.
pub open spec fn dispatched(tag: Seq<char>, r: Fallible<Atom>) -> bool {
    match r {
        Ok(a) => a.numeric() && a.name() == tag,
        Err(e) => !in_family(tag) && fails(r, ErrorVariant::TypeParse, outside_family(tag)),
    }
}

/// Resolves a tag against the numeric family. A tag that names another type,
/// or none, is refused as a parse error.
pub fn dispatch_number(tag: &str) -> (r: Fallible<Atom>)
    ensures
        dispatched(tag@, r),
{
    match Type::try_from(tag) {
        Ok(t) => {
            assert(t.plain() && t.descriptor() == tag@);
            match t {
                Type::Atom(a) => {
                    if a.is_numeric() {
                        return Ok(a);
                    }
                    proof {
                        lemma_names_differ(a);
                    }
                },
                Type::Pair(b) => {
                    proof {
                        lemma_shapes_differ(b);
                    }
                },
                Type::Vector(b) => {
                    proof {
                        lemma_shapes_differ(b);
                    }
                },
                _ => {},
            }
            Err(failure(ErrorVariant::TypeParse, "no instantiation for a type that is not numeric"))
        },
        Err(e) => {
            assert forall|a: Atom| a.numeric() implies a.name() != tag@ by {
                assert(Type::Atom(a).plain());
            }
            Err(e)
        },
    }
}

/// No two atomic types have one name.
pub proof fn lemma_names_differ(a: Atom)
    ensures
        forall|b: Atom| b.name() == a.name() ==> b == a,
{
    reveal_strlit("bool");
    reveal_strlit("u8");
    reveal_strlit("u16");
    reveal_strlit("u32");
    reveal_strlit("u64");
    reveal_strlit("i8");
    reveal_strlit("i16");
    reveal_strlit("i32");
    reveal_strlit("i64");
    reveal_strlit("f32");
    reveal_strlit("f64");
    reveal_strlit("String");
    assert forall|b: Atom| b.name() == a.name() implies b == a by {
        if b != a {
            let x = a.name();
            let y = b.name();
            assert(x.len() == y.len());
            assert(x[0] == y[0]);
            assert(x[1] == y[1]);
            if x.len() > 2 {
                assert(x[2] == y[2]);
            }
        }
    }
}

/// The descriptor of a pair or of a vector is the name of no atomic type.
pub proof fn lemma_shapes_differ(b: Atom)
    ensures
        forall|a: Atom| a.name() != Type::Pair(b).descriptor() && a.name() != Type::Vector(b).descriptor(),
{
    reveal_strlit("bool");
    reveal_strlit("u8");
    reveal_strlit("u16");
    reveal_strlit("u32");
    reveal_strlit("u64");
    reveal_strlit("i8");
    reveal_strlit("i16");
    reveal_strlit("i32");
    reveal_strlit("i64");
    reveal_strlit("f32");
    reveal_strlit("f64");
    reveal_strlit("String");
    reveal_strlit("(");
    reveal_strlit(", ");
    reveal_strlit(")");
    reveal_strlit("Vec<");
    reveal_strlit(">");
    assert forall|a: Atom|
        a.name() != Type::Pair(b).descriptor() && a.name() != Type::Vector(b).descriptor() by {
        let p = Type::Pair(b).descriptor();
        let v = Type::Vector(b).descriptor();
        assert(p[0] == '(');
        assert(v[0] == 'V');
        assert(a.name()[0] != '(' && a.name()[0] != 'V');
    }
}

/// The family is total and resolves each of its tags to one member: for the
/// name of a numeric type, dispatch gives that type and no other.
pub proof fn law_dispatch_totality(a: Atom, r: Fallible<Atom>)
    requires
        a.numeric(),
        dispatched(a.name(), r),
    ensures
        r == Ok::<Atom, Error>(a),
{
    lemma_names_differ(a);
}

/// Whether the type is a plain type over a member of the numeric family: a
/// number, a pair of numbers or a vector of numbers.
pub open spec fn numeric_type(t: Type) -> bool {
    match t {
        Type::Atom(a) => a.numeric(),
        Type::Pair(a) => a.numeric(),
        Type::Vector(a) => a.numeric(),
        _ => false,
    }
}

/// Whether `r` is what the numeric family makes of a tag that may be
/// composed: the plain type that the tag names, where its component is a
/// member of the family; else a parse error.
pub open spec fn dispatched_type(tag: Seq<char>, r: Fallible<Type>) -> bool {
    match r {
        Ok(t) => numeric_type(t) && t.descriptor() == tag,
        Err(e) => fails(r, ErrorVariant::TypeParse, outside_family(tag)) && forall|t: Type|
            numeric_type(t) ==> t.descriptor() != tag,
    }
}

/// Resolves a tag that may be composed of component tags, such as that of a
/// pair or of a vector of numbers. The component is resolved against the
/// numeric family; a tag whose component is outside it, or that names no
/// type, is refused as a parse error.
pub fn dispatch_type(tag: &str) -> (r: Fallible<Type>)
    ensures
        dispatched_type(tag@, r),
{
    match Type::try_from(tag) {
        Ok(t) => {
            assert(t.plain() && t.descriptor() == tag@);
            let numeric = match t {
                Type::Atom(a) => a.is_numeric(),
                Type::Pair(a) => a.is_numeric(),
                Type::Vector(a) => a.is_numeric(),
                _ => false,
            };
            if numeric {
                Ok(t)
            } else {
                proof {
                    lemma_descriptors_differ(t);
                }
                Err(failure(ErrorVariant::TypeParse, "no instantiation for a type that is not numeric"))
            }
        },
        Err(e) => Err(e),
    }
}

/// No two plain types have one descriptor.
pub proof fn lemma_descriptors_differ(t: Type)
    requires
        t.plain(),
    ensures
        forall|u: Type| u.plain() && u.descriptor() == t.descriptor() ==> u == t,
{
    reveal_strlit("(");
    reveal_strlit(", ");
    reveal_strlit(")");
    reveal_strlit("Vec<");
    reveal_strlit(">");
    assert forall|u: Type| u.plain() && u.descriptor() == t.descriptor() implies u == t by {
        match (t, u) {
            (Type::Atom(a), Type::Atom(b)) => {
                lemma_names_differ(a);
            },
            (Type::Atom(a), Type::Pair(b)) => {
                lemma_shapes_differ(b);
            },
            (Type::Atom(a), Type::Vector(b)) => {
                lemma_shapes_differ(b);
            },
            (Type::Pair(a), Type::Atom(b)) => {
                lemma_shapes_differ(a);
            },
            (Type::Vector(a), Type::Atom(b)) => {
                lemma_shapes_differ(a);
            },
            (Type::Pair(a), Type::Vector(b)) => {
                assert(t.descriptor()[0] == '(');
                assert(u.descriptor()[0] == 'V');
            },
            (Type::Vector(a), Type::Pair(b)) => {
                assert(t.descriptor()[0] == 'V');
                assert(u.descriptor()[0] == '(');
            },
            (Type::Pair(a), Type::Pair(b)) => {
                let x = a.name();
                let y = b.name();
                assert(t.descriptor().len() == 4 + 2 * x.len());
                assert(u.descriptor().len() == 4 + 2 * y.len());
                assert(t.descriptor().subrange(1, 1 + x.len() as int) =~= x);
                assert(u.descriptor().subrange(1, 1 + y.len() as int) =~= y);
                lemma_names_differ(a);
            },
            (Type::Vector(a), Type::Vector(b)) => {
                let x = a.name();
                let y = b.name();
                assert(t.descriptor().len() == 5 + x.len());
                assert(u.descriptor().len() == 5 + y.len());
                assert(t.descriptor().subrange(4, 4 + x.len() as int) =~= x);
                assert(u.descriptor().subrange(4, 4 + y.len() as int) =~= y);
                lemma_names_differ(a);
            },
            _ => {},
        }
    }
}

/// The family resolves each of its composed tags to one type: for the
/// descriptor of a number, of a pair or of a vector of numbers, dispatch
/// gives that type and no other.
pub proof fn law_dispatch_type_totality(t: Type, r: Fallible<Type>)
    requires
        numeric_type(t),
        dispatched_type(t.descriptor(), r),
    ensures
        r == Ok::<Type, Error>(t),
{
    lemma_descriptors_differ(t);
}

} // verus!
