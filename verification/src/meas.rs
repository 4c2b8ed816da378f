//! The boundary's constructors of measurements: each selects, by the tag of
//! a floating-point type, the instantiation that the algorithm library is to
//! build.
use vstd::prelude::*;
use opendp::error::{ErrorVariant, Fallible};
use crate::dispatch::{dispatch_number, in_family, lemma_names_differ, outside_family};
use crate::error::{fails, failure};
use crate::float::Float64;
use crate::util::Atom;

verus! {

/// The instantiation of a noise mechanism: the floating-point type and the
/// scale of the noise.
#[derive(Clone, Copy, Debug)]
pub struct BaseNoise {
    pub atom: Atom,
    pub sigma: Float64,
}

/// The instantiation of a noise mechanism over vectors of a known length.
#[derive(Clone, Copy, Debug)]
pub struct BaseNoiseVec {
    pub atom: Atom,
    pub length: usize,
    pub sigma: Float64,
}

/// Whether the tag names a member of the numeric family to which noise can be
/// added: a floating-point type.
pub open spec fn in_noise_family(tag: Seq<char>) -> bool {
    exists|a: Atom| a.floating() && a.name() == tag
}

/// What the parse error for a tag without a noise mechanism says: that the
/// tag names a number that is not floating-point, or what is said of a tag
/// outside the numeric family.
pub open spec fn outside_noise_family(tag: Seq<char>) -> Seq<char> {
    if in_family(tag) {
        "no instantiation of a noise mechanism for a type that is not floating-point"@
    } else {
        outside_family(tag)
    }
}

/// Whether `atom` is what a tag selects for a noise mechanism: the
/// floating-point type that the tag names; or a parse error where the tag
/// names none.
pub open spec fn selects_noise(tag: Seq<char>, r: Fallible<Atom>) -> bool {
    match r {
        Ok(a) => a.floating() && a.name() == tag,
        Err(e) => !in_noise_family(tag) && fails(r, ErrorVariant::TypeParse, outside_noise_family(tag)),
    }
}

/// Resolves a tag against the floating-point members of the numeric family.
pub fn select_noise(type_args: &str) -> (r: Fallible<Atom>)
    ensures
        selects_noise(type_args@, r),
{
    match dispatch_number(type_args) {
        Ok(atom) => {
            if atom.is_floating() {
                Ok(atom)
            } else {
                proof {
                    lemma_names_differ(atom);
                    assert(atom.numeric() && atom.name() == type_args@);
                }
                Err(
                    failure(
                        ErrorVariant::TypeParse,
                        "no instantiation of a noise mechanism for a type that is not floating-point",
                    ),
                )
            }
        },
        Err(e) => {
            assert forall|a: Atom| a.floating() implies a.name() != type_args@ by {
                assert(a.numeric());
            }
            Err(e)
        },
    }
}

/// The outcome of a selection, as the type selected.
pub open spec fn noise_type(r: Fallible<BaseNoise>) -> Fallible<Atom> {
    match r {
        Ok(s) => Ok(s.atom),
        Err(e) => Err(e),
    }
}

/// The outcome of a selection over vectors, as the type selected.
pub open spec fn noise_vec_type(r: Fallible<BaseNoiseVec>) -> Fallible<Atom> {
    match r {
        Ok(s) => Ok(s.atom),
        Err(e) => Err(e),
    }
}

/// Selects the instantiation of the Laplace mechanism for the floating-point
/// type that `type_args` names, with the scale `sigma`.
pub fn opendp_meas__make_base_laplace(type_args: &str, sigma: Float64) -> (r: Fallible<BaseNoise>)
    ensures
        selects_noise(type_args@, noise_type(r)),
        r matches Ok(s) ==> s.sigma == sigma,
{
    match select_noise(type_args) {
        Ok(atom) => Ok(BaseNoise { atom, sigma }),
        Err(e) => Err(e),
    }
}

/// Selects the instantiation of the Laplace mechanism over vectors of
/// `length` elements for the floating-point type that `type_args` names,
/// with the scale `sigma`.
pub fn opendp_meas__make_base_laplace_vec(type_args: &str, length: usize, sigma: Float64) -> (r: Fallible<
    BaseNoiseVec,
>)
    ensures
        selects_noise(type_args@, noise_vec_type(r)),
        r matches Ok(s) ==> s.length == length && s.sigma == sigma,
{
    match select_noise(type_args) {
        Ok(atom) => Ok(BaseNoiseVec { atom, length, sigma }),
        Err(e) => Err(e),
    }
}

/// Selects the instantiation of the Gaussian mechanism for the
/// floating-point type that `type_args` names, with the scale `sigma`.
pub fn opendp_meas__make_base_gaussian(type_args: &str, sigma: Float64) -> (r: Fallible<BaseNoise>)
    ensures
        selects_noise(type_args@, noise_type(r)),
        r matches Ok(s) ==> s.sigma == sigma,
{
    match select_noise(type_args) {
        Ok(atom) => Ok(BaseNoise { atom, sigma }),
        Err(e) => Err(e),
    }
}

/// The description of the constructors of measurements: for each its name,
/// its arguments in order with their types at the boundary, and what it
/// returns.
pub const MEASUREMENT_CONSTRUCTORS: &'static str =
    "{\n\"functions\": [\n    { \"name\": \"make_base_laplace\", \"args\": [ [\"const char *\", \"selector\"], [\"double\", \"sigma\"] ], \"ret\": \"void *\" },\n    { \"name\": \"make_base_laplace_vec\", \"args\": [ [\"const char *\", \"selector\"], [\"size_t\", \"length\"], [\"double\", \"sigma\"] ], \"ret\": \"void *\" },\n    { \"name\": \"make_base_gaussian\", \"args\": [ [\"const char *\", \"selector\"], [\"double\", \"sigma\"] ], \"ret\": \"void *\" }\n]\n}";

/// The description of the constructors of measurements, for those who
/// generate bindings.
pub fn opendp_meas__bootstrap() -> (text: &'static str)
    ensures
        text@ == MEASUREMENT_CONSTRUCTORS@,
{
    MEASUREMENT_CONSTRUCTORS
}

} // verus!
