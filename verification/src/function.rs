//! Functions between concrete types, erased into functions between carried
//! values.
use vstd::prelude::*;
use opendp::error::{ErrorVariant, Fallible};
use crate::any::{recovers, AnyObject, Downcast};
use crate::erase::Erasable;
use crate::error::fails;
use crate::value::ValueView;

verus! {

/// A function of one argument, as the closure that computes it.
pub struct Function<F> {
    pub function: F,
}

/// Whether `r` is what the erased form of `function` gives for a carried
/// value: a failed cast where the value is not of the function's input type;
/// else what the function gives for the value, carried again, or its failure
/// as it stands.
pub open spec fn evaluates<TI: Erasable, TO: Erasable, F: Fn(&TI) -> Fallible<TO>>(
    function: &F,
    arg: ValueView,
    r: Fallible<AnyObject>,
) -> bool {
    if arg.type_tag() == TI::type_tag() {
        exists|x: TI, out: Fallible<TO>|
            x.erased() == arg && #[trigger] (*function).ensures((&x,), out) && carried(out, r)
    } else {
        fails(r, ErrorVariant::FailedCast, "Failed downcast_ref of AnyBox to "@ + TI::type_tag().descriptor())
    }
}

/// Whether `r` is the outcome `out` with its value carried.
pub open spec fn carried<TO: Erasable>(out: Fallible<TO>, r: Fallible<AnyObject>) -> bool {
    match out {
        Ok(o) => r matches Ok(a) && a.held() == o.erased(),
        Err(e) => r == Err::<AnyObject, _>(e),
    }
}

/// Whether `r` is what the erased form of `function`, whose argument is
/// carried already, gives for a carried value.
pub open spec fn evaluates_out<TO: Erasable, F: Fn(&AnyObject) -> Fallible<TO>>(
    function: &F,
    arg: &AnyObject,
    r: Fallible<AnyObject>,
) -> bool {
    exists|out: Fallible<TO>| #[trigger] (*function).ensures((arg,), out) && carried(out, r)
}

impl<F> Function<F> {
    /// The function that the closure computes.
    pub fn new(function: F) -> (r: Self)
        ensures
            r.function == function,
    {
        Function { function }
    }

    /// Applies the function.
    pub fn eval<A, O>(&self, arg: &A) -> (r: Fallible<O>) where F: Fn(&A) -> Fallible<O>
        requires
            self.function.requires((arg,)),
        ensures
            self.function.ensures((arg,), r),
    {
        (self.function)(arg)
    }

    /// Erases a function between concrete types. The erased function asks
    /// its argument for the input type, applies the function and carries
    /// what it gives.
    pub fn into_any<TI: Erasable, TO: Erasable>(self) -> (erased: Function<
        impl Fn(&AnyObject) -> Fallible<AnyObject>,
    >) where F: Fn(&TI) -> Fallible<TO>
        requires
            forall|x: &TI| self.function.requires((x,)),
        ensures
            forall|arg: &AnyObject| erased.function.requires((arg,)),
            forall|arg: &AnyObject, r: Fallible<AnyObject>|
                #[trigger] erased.function.ensures((arg,), r) ==> evaluates::<TI, TO, F>(&self.function, arg.held(), r),
    {
        let function = self.function;
        let erased = move |arg: &AnyObject| -> (r: Fallible<AnyObject>)
            ensures
                evaluates::<TI, TO, F>(&function, arg.held(), r),
            {
                let x: TI = match arg.downcast_ref::<TI>() {
                    Ok(x) => x,
                    Err(e) => {
                        return Err(e);
                    },
                };
                let out = function(&x);
                let r = match out {
                    Ok(o) => Ok(AnyObject::new(o)),
                    Err(e) => Err(e),
                };
                assert((&function).ensures((&x,), out) && carried(out, r));
                r
            };
        Function { function: erased }
    }

    /// Erases the result of a function whose argument is carried already.
    pub fn into_any_out<TO: Erasable>(self) -> (erased: Function<
        impl Fn(&AnyObject) -> Fallible<AnyObject>,
    >) where F: Fn(&AnyObject) -> Fallible<TO>
        requires
            forall|arg: &AnyObject| self.function.requires((arg,)),
        ensures
            forall|arg: &AnyObject| erased.function.requires((arg,)),
            forall|arg: &AnyObject, r: Fallible<AnyObject>|
                #[trigger] erased.function.ensures((arg,), r) ==> evaluates_out::<TO, F>(&self.function, arg, r),
    {
        let function = self.function;
        let erased = move |arg: &AnyObject| -> (r: Fallible<AnyObject>)
            ensures
                evaluates_out::<TO, F>(&function, arg, r),
            {
                let out = function(arg);
                let r = match out {
                    Ok(o) => Ok(AnyObject::new(o)),
                    Err(e) => Err(e),
                };
                assert((&function).ensures((arg,), out) && carried(out, r));
                r
            };
        Function { function: erased }
    }
}

/// Whether `r` is what applying one erased function and then another gives
/// for a carried value: what the second gives for what the first gives, or
/// the first's failure as it stands.
pub open spec fn chains<F0: Fn(&AnyObject) -> Fallible<AnyObject>, F1: Fn(&AnyObject) -> Fallible<AnyObject>>(
    function1: &F1,
    function0: &F0,
    arg: &AnyObject,
    r: Fallible<AnyObject>,
) -> bool {
    exists|mid: Fallible<AnyObject>| #[trigger]
        (*function0).ensures((arg,), mid) && match mid {
            Ok(m) => (*function1).ensures((&m,), r),
            Err(e) => r == Err::<AnyObject, _>(e),
        }
}

/// The function that applies `function0` and then `function1` to what it
/// gives.
pub fn make_chain<F0: Fn(&AnyObject) -> Fallible<AnyObject>, F1: Fn(&AnyObject) -> Fallible<AnyObject>>(
    function1: Function<F1>,
    function0: Function<F0>,
) -> (chained: Function<impl Fn(&AnyObject) -> Fallible<AnyObject>>)
    requires
        forall|arg: &AnyObject| function0.function.requires((arg,)),
        forall|arg: &AnyObject| function1.function.requires((arg,)),
    ensures
        forall|arg: &AnyObject| chained.function.requires((arg,)),
        forall|arg: &AnyObject, r: Fallible<AnyObject>|
            #[trigger] chained.function.ensures((arg,), r) ==> chains::<F0, F1>(
                &function1.function,
                &function0.function,
                arg,
                r,
            ),
{
    let f0 = function0.function;
    let f1 = function1.function;
    let chained = move |arg: &AnyObject| -> (r: Fallible<AnyObject>)
        ensures
            chains::<F0, F1>(&f1, &f0, arg, r),
        {
            let mid = f0(arg);
            let r = match mid {
                Ok(m) => {
                    let r = f1(&m);
                    assert((&f0).ensures((arg,), Ok::<AnyObject, _>(m)) && (&f1).ensures((&m,), r));
                    r
                },
                Err(e) => {
                    assert((&f0).ensures((arg,), Err::<AnyObject, _>(e)));
                    Err(e)
                },
            };
            r
        };
    Function { function: chained }
}

/// Whether `r` is what the two functions give one after the other for a
/// value with the erased form `arg`, carried: the first is applied to the
/// value, the second to a value with the erased form of what the first gave.
pub open spec fn composes<
    TI: Erasable,
    TX: Erasable,
    TO: Erasable,
    F0: Fn(&TI) -> Fallible<TX>,
    F1: Fn(&TX) -> Fallible<TO>,
>(function1: &F1, function0: &F0, arg: ValueView, r: Fallible<AnyObject>) -> bool {
    exists|x: TI, y0: TX, y1: TX, out: Fallible<TO>|
        x.erased() == arg && #[trigger] (*function0).ensures((&x,), Ok::<TX, _>(y0)) && y1.erased()
            == y0.erased() && #[trigger] (*function1).ensures((&y1,), out) && carried(out, r)
}

/// Erasing two functions and applying one after the other gives what the
/// functions themselves give one after the other, carried: where the first
/// gives a value of the type that the second takes, the erased second
/// recovers it and goes on from it.
pub proof fn law_chain_coherence<
    TI: Erasable,
    TX: Erasable,
    TO: Erasable,
    F0: Fn(&TI) -> Fallible<TX>,
    F1: Fn(&TX) -> Fallible<TO>,
>(function1: &F1, function0: &F0, arg: ValueView, mid: AnyObject, r: Fallible<AnyObject>)
    requires
        arg.type_tag() == TI::type_tag(),
        evaluates::<TI, TX, F0>(function0, arg, Ok(mid)),
        evaluates::<TX, TO, F1>(function1, mid.held(), r),
    ensures
        composes::<TI, TX, TO, F0, F1>(function1, function0, arg, r),
{
    let (x, out0) = choose|x: TI, out0: Fallible<TX>|
        x.erased() == arg && #[trigger] (*function0).ensures((&x,), out0) && carried(out0, Ok::<AnyObject, _>(mid));
    let y0 = out0->Ok_0;
    y0.lemma_erased_tag();
    let (y1, out) = choose|y1: TX, out: Fallible<TO>|
        y1.erased() == mid.held() && #[trigger] (*function1).ensures((&y1,), out) && carried(out, r);
    assert((*function0).ensures((&x,), Ok::<TX, _>(y0)) && (*function1).ensures((&y1,), out));
}

/// Erased functions that do not fit fail before the second is applied: where
/// the first gives a value of another type than the second takes, the cast
/// fails, whatever the second would give.
pub proof fn law_chain_mismatch<
    TI: Erasable,
    TX: Erasable,
    TY: Erasable,
    TO: Erasable,
    F0: Fn(&TI) -> Fallible<TX>,
    F1: Fn(&TY) -> Fallible<TO>,
>(function1: &F1, function0: &F0, arg: ValueView, mid: AnyObject, r: Fallible<AnyObject>)
    requires
        arg.type_tag() == TI::type_tag(),
        TX::type_tag() != TY::type_tag(),
        evaluates::<TI, TX, F0>(function0, arg, Ok(mid)),
        evaluates::<TY, TO, F1>(function1, mid.held(), r),
    ensures
        r matches Err(e) && e.variant == ErrorVariant::FailedCast,
{
    let (x, out0) = choose|x: TI, out0: Fallible<TX>|
        x.erased() == arg && #[trigger] (*function0).ensures((&x,), out0) && carried(out0, Ok::<AnyObject, _>(mid));
    let y0 = out0->Ok_0;
    y0.lemma_erased_tag();
}

} // verus!
