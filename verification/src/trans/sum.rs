//! The boundary's constructors of sums: each selects, by the tag of a numeric
//! type, the instantiation that the algorithm library is to build.
use vstd::prelude::*;
use vstd::string::*;
use opendp::error::{ErrorVariant, Fallible};
use crate::any::AnyObject;
use crate::dispatch::{dispatch_number, in_family, lemma_names_differ, outside_family};
use crate::error::{failed_cast, fails, failure};
use crate::util::{Atom, Type};
use crate::value::{Pair, Value, ValueView};

verus! {

/// The instantiation of the bounded sum that a call selects: the numeric
/// type, and the bounds recovered as two values of it.
#[derive(Clone, Copy, Debug)]
pub struct BoundedSum {
    pub atom: Atom,
    pub bounds: Pair,
}

/// The instantiation of the bounded sum over vectors of a known size.
#[derive(Clone, Copy, Debug)]
pub struct SizedBoundedSum {
    pub atom: Atom,
    pub size: usize,
    pub bounds: Pair,
}

/// What a caller's pointer to a carried value led to: the value held, or
/// nothing where the pointer was null.
pub open spec fn pointed(bounds: Option<&AnyObject>) -> Option<ValueView> {
    match bounds {
        Some(b) => Some(b.held()),
        None => None,
    }
}

/// Whether `r` is what recovering the bounds of an instantiation gives: a
/// parse error where the tag names no numeric type; else a failure at the
/// boundary where there is no carried value; else a failed cast where the
/// carried value is not a pair of that type; else the type and the pair.
pub open spec fn selects_bounds(tag: Seq<char>, bounds: Option<ValueView>, r: Fallible<(Atom, Pair)>) -> bool {
    if !in_family(tag) {
        fails(r, ErrorVariant::TypeParse, outside_family(tag))
    } else {
        let atom = choose|a: Atom| a.numeric() && a.name() == tag;
        match bounds {
            None => fails(r, ErrorVariant::FFI, "attempted to follow a null pointer"@),
            Some(held) => if held.type_tag() == Type::Pair(atom) {
                r matches Ok(s) && s.0 == atom && held == ValueView::Pair(s.1.first(), s.1.second())
            } else {
                fails(
                    r,
                    ErrorVariant::FailedCast,
                    "Failed downcast_ref of AnyBox to "@ + Type::Pair(atom).descriptor(),
                )
            },
        }
    }
}

fn select_bounds(bounds: Option<&AnyObject>, tag: &str) -> (r: Fallible<(Atom, Pair)>)
    ensures
        selects_bounds(tag@, pointed(bounds), r),
{
    let atom = match dispatch_number(tag) {
        Ok(a) => a,
        Err(e) => {
            return Err(e);
        },
    };
    proof {
        lemma_names_differ(atom);
        assert(atom == choose|a: Atom| a.numeric() && a.name() == tag@);
    }
    let bounds = match bounds {
        Some(b) => b,
        None => {
            return Err(failure(ErrorVariant::FFI, "attempted to follow a null pointer"));
        },
    };
    match bounds.content() {
        Value::Pair(p) => {
            if p.lower().atom_of() == atom {
                return Ok((atom, *p));
            }
        },
        _ => {},
    }
    Err(failed_cast("Failed downcast_ref of AnyBox to ", Type::Pair(atom).to_string().as_str()))
}

/// The outcome of a selection of bounds, as the type and the pair.
pub open spec fn bounded(r: Fallible<BoundedSum>) -> Fallible<(Atom, Pair)> {
    match r {
        Ok(s) => Ok((s.atom, s.bounds)),
        Err(e) => Err(e),
    }
}

/// The outcome of a selection of bounds with a size, as the type and the
/// pair.
pub open spec fn sized_bounded(r: Fallible<SizedBoundedSum>) -> Fallible<(Atom, Pair)> {
    match r {
        Ok(s) => Ok((s.atom, s.bounds)),
        Err(e) => Err(e),
    }
}

/// Selects the instantiation of the bounded sum for the numeric type that
/// `T` names, and recovers the bounds for it from the carried value to which
/// the caller's pointer led. The tag is resolved before the pointer is
/// looked at.
#[allow(non_snake_case)]
pub fn opendp_trans__make_bounded_sum(bounds: Option<&AnyObject>, T: &str) -> (r: Fallible<BoundedSum>)
    ensures
        selects_bounds(T@, pointed(bounds), bounded(r)),
{
    match select_bounds(bounds, T) {
        Ok(s) => Ok(BoundedSum { atom: s.0, bounds: s.1 }),
        Err(e) => Err(e),
    }
}

/// Selects the instantiation of the bounded sum over vectors of `size`
/// elements for the numeric type that `T` names, and recovers the bounds for
/// it from the carried value to which the caller's pointer led. The tag is
/// resolved before the pointer is looked at.
#[allow(non_snake_case)]
pub fn opendp_trans__make_sized_bounded_sum(size: u32, bounds: Option<&AnyObject>, T: &str) -> (r: Fallible<
    SizedBoundedSum,
>)
    ensures
        selects_bounds(T@, pointed(bounds), sized_bounded(r)),
        r matches Ok(s) ==> s.size == size,
{
    match select_bounds(bounds, T) {
        Ok(s) => Ok(SizedBoundedSum { atom: s.0, size: size as usize, bounds: s.1 }),
        Err(e) => Err(e),
    }
}

} // verus!
