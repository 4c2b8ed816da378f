//! Relations between distances of concrete types, erased into relations
//! between carried distances.
use vstd::prelude::*;
use std::rc::Rc;
use opendp::error::{ErrorVariant, Fallible};
use crate::any::Downcast;
use crate::distance::{AnyMeasureDistance, AnyMetricDistance};
use crate::erase::Erasable;
use crate::error::fails;
use crate::value::ValueView;

verus! {

/// `Rc::clone`: a second handle to the value that the first one shares. Both
/// stand for that same value.
#[verifier::external_body]
fn share<T>(handle: &Rc<T>) -> (r: Rc<T>)
    ensures
        r == *handle,
{
    Rc::clone(handle)
}

/// Whether `r` is what the erased form of `relation` gives for two carried
/// distances: a failed cast where the first is not of the relation's input
/// type, or else the second not of its output type; else what the relation
/// gives for the two.
pub open spec fn relates<QI: Erasable, QO: Erasable, R: Fn(&QI, &QO) -> Fallible<bool>>(
    relation: &R,
    d_in: ValueView,
    d_out: ValueView,
    r: Fallible<bool>,
) -> bool {
    if d_in.type_tag() != QI::type_tag() {
        fails(r, ErrorVariant::FailedCast, "Failed downcast_ref of AnyBox to "@ + QI::type_tag().descriptor())
    } else if d_out.type_tag() != QO::type_tag() {
        fails(r, ErrorVariant::FailedCast, "Failed downcast_ref of AnyBox to "@ + QO::type_tag().descriptor())
    } else {
        exists|x: QI, y: QO|
            x.erased() == d_in && y.erased() == d_out && #[trigger] (*relation).ensures((&x, &y), r)
    }
}

/// Erases a relation between distances of concrete types. The erased relation
/// asks its first argument for the input type, then its second for the output
/// type, and applies the relation, which it shares with its other holders.
pub fn make_any_relation<QI: Erasable, QO: Erasable, AQI: Downcast, AQO: Downcast, R: Fn(&QI, &QO) -> Fallible<bool>>(
    relation: &Rc<R>,
) -> (erased: impl Fn(&AQI, &AQO) -> Fallible<bool>)
    requires
        forall|x: &QI, y: &QO| (**relation).requires((x, y)),
    ensures
        forall|d_in: &AQI, d_out: &AQO| erased.requires((d_in, d_out)),
        forall|d_in: &AQI, d_out: &AQO, r: Fallible<bool>|
            #[trigger] erased.ensures((d_in, d_out), r) ==> relates::<QI, QO, R>(
                &**relation,
                d_in.payload(),
                d_out.payload(),
                r,
            ),
{
    let relation = share(relation);
    move |d_in: &AQI, d_out: &AQO| -> (r: Fallible<bool>)
        ensures
            relates::<QI, QO, R>(&*relation, d_in.payload(), d_out.payload(), r),
        {
            let x: QI = match d_in.downcast_ref::<QI>() {
                Ok(x) => x,
                Err(e) => {
                    return Err(e);
                },
            };
            let y: QO = match d_out.downcast_ref::<QO>() {
                Ok(y) => y,
                Err(e) => {
                    return Err(e);
                },
            };
            let r = relation(&x, &y);
            assert((*relation).ensures((&x, &y), r));
            r
        }
}

/// Whether `r` is what the erased form of the distance map `map` gives for a
/// carried distance: a failed cast where the distance is not of the map's
/// input type; else the distance that the map gives, carried as a distance
/// under a metric, or the map's failure as it stands.
pub open spec fn maps<QI: Erasable, QO: Erasable, M: Fn(&QI) -> Fallible<Box<QO>>>(
    map: &M,
    d_in: ValueView,
    r: Fallible<Box<AnyMetricDistance>>,
) -> bool {
    if d_in.type_tag() != QI::type_tag() {
        fails(r, ErrorVariant::FailedCast, "Failed downcast_ref of AnyBox to "@ + QI::type_tag().descriptor())
    } else {
        exists|x: QI, out: Fallible<Box<QO>>|
            x.erased() == d_in && #[trigger] (*map).ensures((&x,), out) && mapped(out, r)
    }
}

/// Whether `r` is the outcome `out` with its distance carried.
pub open spec fn mapped<QO: Erasable>(out: Fallible<Box<QO>>, r: Fallible<Box<AnyMetricDistance>>) -> bool {
    match out {
        Ok(d) => r matches Ok(a) && a.held() == (*d).erased(),
        Err(e) => r == Err::<Box<AnyMetricDistance>, _>(e),
    }
}

/// Whether `erased` is the erased form of the relation `native`.
pub open spec fn erases_relation<
    QI: Erasable,
    QO: Erasable,
    AQI: Downcast,
    AQO: Downcast,
    R: Fn(&QI, &QO) -> Fallible<bool>,
    E: Fn(&AQI, &AQO) -> Fallible<bool>,
>(erased: &E, native: &R) -> bool {
    &&& forall|d_in: &AQI, d_out: &AQO| (*erased).requires((d_in, d_out))
    &&& forall|d_in: &AQI, d_out: &AQO, r: Fallible<bool>|
        #[trigger] (*erased).ensures((d_in, d_out), r) ==> relates::<QI, QO, R>(native, d_in.payload(), d_out.payload(), r)
}

/// Whether `erased` is the erased form of the distance map `native`.
pub open spec fn erases_map<
    QI: Erasable,
    QO: Erasable,
    AQI: Downcast,
    M: Fn(&QI) -> Fallible<Box<QO>>,
    E: Fn(&AQI) -> Fallible<Box<AnyMetricDistance>>,
>(erased: &E, native: &M) -> bool {
    &&& forall|d_in: &AQI| (*erased).requires((d_in,))
    &&& forall|d_in: &AQI, r: Fallible<Box<AnyMetricDistance>>|
        #[trigger] (*erased).ensures((d_in,), r) ==> maps::<QI, QO, M>(native, d_in.payload(), r)
}

/// Erases a distance map, where there is one. The erased map asks its
/// argument for the input type and fails the cast where it is of another (it
/// does not answer that there is no mapping); it applies the map, which it
/// shares with its other holders, and carries the distance that it gives.
pub fn make_any_map<QI: Erasable, QO: Erasable, AQI: Downcast, M: Fn(&QI) -> Fallible<Box<QO>>>(
    map: &Option<Rc<M>>,
) -> (erased: Option<impl Fn(&AQI) -> Fallible<Box<AnyMetricDistance>>>)
    requires
        map matches Some(m) ==> forall|x: &QI| (**m).requires((x,)),
    ensures
        erased is Some == map is Some,
        erased matches Some(e) ==> (forall|d_in: &AQI| e.requires((d_in,))) && (forall|
            d_in: &AQI,
            r: Fallible<Box<AnyMetricDistance>>,
        | #[trigger] e.ensures((d_in,), r) ==> maps::<QI, QO, M>(&*(map->Some_0), d_in.payload(), r)),
{
    match map {
        Some(m) => {
            let map = share(m);
            let erased = move |d_in: &AQI| -> (r: Fallible<Box<AnyMetricDistance>>)
                ensures
                    maps::<QI, QO, M>(&*map, d_in.payload(), r),
                {
                    let x: QI = match d_in.downcast_ref::<QI>() {
                        Ok(x) => x,
                        Err(e) => {
                            return Err(e);
                        },
                    };
                    let out = map(&x);
                    let r = match out {
                        Ok(d) => Ok(Box::new(AnyMetricDistance::new(*d))),
                        Err(e) => Err(e),
                    };
                    assert((*map).ensures((&x,), out) && mapped(out, r));
                    r
                };
            Some(erased)
        },
        None => None,
    }
}

/// Whether a distance bound on the output can be met given one on the input,
/// with the map from output bounds to input bounds where there is one.
pub struct PrivacyRelation<R, B> {
    pub relation: Rc<R>,
    pub backward_map: Option<Rc<B>>,
}

/// Whether a distance bound on the output can be met given one on the input,
/// with the maps between input and output bounds where there are any.
pub struct StabilityRelation<R, F, B> {
    pub relation: Rc<R>,
    pub forward_map: Option<Rc<F>>,
    pub backward_map: Option<Rc<B>>,
}

impl<R, B> PrivacyRelation<R, B> {
    /// The relation with its map, each behind a handle that can be shared.
    pub fn new_all(relation: R, backward_map: Option<B>) -> (r: Self)
        ensures
            *r.relation == relation,
            r.backward_map is Some == backward_map is Some,
            backward_map matches Some(b) ==> *(r.backward_map->Some_0) == b,
    {
        PrivacyRelation {
            relation: Rc::new(relation),
            backward_map: match backward_map {
                Some(b) => Some(Rc::new(b)),
                None => None,
            },
        }
    }

    /// Erases the relation and its map. The native closures stay shared with
    /// this relation's other holders.
    pub fn into_any<QI: Erasable, QO: Erasable>(self) -> (erased: PrivacyRelation<
        impl Fn(&AnyMetricDistance, &AnyMeasureDistance) -> Fallible<bool>,
        impl Fn(&AnyMeasureDistance) -> Fallible<Box<AnyMetricDistance>>,
    >) where R: Fn(&QI, &QO) -> Fallible<bool>, B: Fn(&QO) -> Fallible<Box<QI>>
        requires
            forall|x: &QI, y: &QO| (*self.relation).requires((x, y)),
            self.backward_map matches Some(m) ==> forall|y: &QO| (*m).requires((y,)),
        ensures
            erases_relation::<QI, QO, AnyMetricDistance, AnyMeasureDistance, R, _>(
                &*erased.relation,
                &*self.relation,
            ),
            erased.backward_map is Some == self.backward_map is Some,
            erased.backward_map matches Some(e) ==> erases_map::<QO, QI, AnyMeasureDistance, B, _>(
                &*e,
                &*(self.backward_map->Some_0),
            ),
    {
        PrivacyRelation::new_all(
            make_any_relation::<QI, QO, AnyMetricDistance, AnyMeasureDistance, R>(&self.relation),
            make_any_map::<QO, QI, AnyMeasureDistance, B>(&self.backward_map),
        )
    }
}

impl<R, F, B> StabilityRelation<R, F, B> {
    /// The relation with its maps, each behind a handle that can be shared.
    pub fn new_all(relation: R, forward_map: Option<F>, backward_map: Option<B>) -> (r: Self)
        ensures
            *r.relation == relation,
            r.forward_map is Some == forward_map is Some,
            forward_map matches Some(f) ==> *(r.forward_map->Some_0) == f,
            r.backward_map is Some == backward_map is Some,
            backward_map matches Some(b) ==> *(r.backward_map->Some_0) == b,
    {
        StabilityRelation {
            relation: Rc::new(relation),
            forward_map: match forward_map {
                Some(f) => Some(Rc::new(f)),
                None => None,
            },
            backward_map: match backward_map {
                Some(b) => Some(Rc::new(b)),
                None => None,
            },
        }
    }

    /// Erases the relation and its maps. The native closures stay shared with
    /// this relation's other holders.
    pub fn into_any<QI: Erasable, QO: Erasable>(self) -> (erased: StabilityRelation<
        impl Fn(&AnyMetricDistance, &AnyMetricDistance) -> Fallible<bool>,
        impl Fn(&AnyMetricDistance) -> Fallible<Box<AnyMetricDistance>>,
        impl Fn(&AnyMetricDistance) -> Fallible<Box<AnyMetricDistance>>,
    >) where R: Fn(&QI, &QO) -> Fallible<bool>, F: Fn(&QI) -> Fallible<Box<QO>>, B: Fn(&QO) -> Fallible<Box<QI>>
        requires
            forall|x: &QI, y: &QO| (*self.relation).requires((x, y)),
            self.forward_map matches Some(m) ==> forall|x: &QI| (*m).requires((x,)),
            self.backward_map matches Some(m) ==> forall|y: &QO| (*m).requires((y,)),
        ensures
            erases_relation::<QI, QO, AnyMetricDistance, AnyMetricDistance, R, _>(
                &*erased.relation,
                &*self.relation,
            ),
            erased.forward_map is Some == self.forward_map is Some,
            erased.forward_map matches Some(e) ==> erases_map::<QI, QO, AnyMetricDistance, F, _>(
                &*e,
                &*(self.forward_map->Some_0),
            ),
            erased.backward_map is Some == self.backward_map is Some,
            erased.backward_map matches Some(e) ==> erases_map::<QO, QI, AnyMetricDistance, B, _>(
                &*e,
                &*(self.backward_map->Some_0),
            ),
    {
        StabilityRelation::new_all(
            make_any_relation::<QI, QO, AnyMetricDistance, AnyMetricDistance, R>(&self.relation),
            make_any_map::<QI, QO, AnyMetricDistance, F>(&self.forward_map),
            make_any_map::<QO, QI, AnyMetricDistance, B>(&self.backward_map),
        )
    }
}

} // verus!
