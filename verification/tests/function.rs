use std::rc::Rc;

use opendp_ffi::any::{AnyObject, Downcast};
use opendp_ffi::distance::{AnyMeasureDistance, AnyMetricDistance};
use opendp::error::{ErrorVariant, Fallible};
use opendp_ffi::error::failure;
use opendp_ffi::function::{make_chain, Function};
use opendp_ffi::relation::{make_any_map, make_any_relation, PrivacyRelation, StabilityRelation};

fn double(x: &i32) -> Fallible<i64> {
    Ok(2 * (*x as i64))
}

fn length(v: &Vec<i64>) -> Fallible<u32> {
    Ok(v.len() as u32)
}

fn repeat(x: &i64) -> Fallible<Vec<i64>> {
    if *x < 0 {
        Err(failure(ErrorVariant::FailedFunction, "negative"))
    } else {
        Ok(vec![*x; *x as usize])
    }
}

#[test]
fn an_erased_function_gives_what_the_function_gives() -> Fallible<()> {
    let erased = Function::new(double).into_any::<i32, i64>();
    let out: i64 = erased.eval(&AnyObject::new(21i32))?.downcast()?;
    assert_eq!(out, 42);
    let out: i64 = erased.eval(&AnyObject::new(i32::MIN))?.downcast()?;
    assert_eq!(out, 2 * (i32::MIN as i64));
    Ok(())
}

#[test]
fn an_erased_function_fails_the_cast_of_another_type() {
    let erased = Function::new(double).into_any::<i32, i64>();
    let e = erased.eval(&AnyObject::new(21i64)).err().unwrap();
    assert_eq!(e.variant, ErrorVariant::FailedCast);
    assert_eq!(e.message.unwrap(), "Failed downcast_ref of AnyBox to i32");
    let e = erased.eval(&AnyObject::new(vec![21i32])).err().unwrap();
    assert_eq!(e.variant, ErrorVariant::FailedCast);
}

#[test]
fn the_failure_of_a_function_passes_through() {
    let erased = Function::new(repeat).into_any::<i64, Vec<i64>>();
    let e = erased.eval(&AnyObject::new(-1i64)).err().unwrap();
    assert_eq!(e.variant, ErrorVariant::FailedFunction);
    assert_eq!(e.message.unwrap(), "negative");
}

#[test]
fn erased_functions_in_a_chain_give_what_the_functions_give_in_turn() -> Fallible<()> {
    let first = Function::new(double).into_any::<i32, i64>();
    let second = Function::new(repeat).into_any::<i64, Vec<i64>>();
    let third = Function::new(length).into_any::<Vec<i64>, u32>();
    let chain = make_chain(third, make_chain(second, first));
    for x in [0i32, 1, 3, 50] {
        let out: u32 = chain.eval(&AnyObject::new(x))?.downcast()?;
        assert_eq!(out, length(&repeat(&double(&x)?)?)?);
    }
    let e = chain.eval(&AnyObject::new(-4i32)).err().unwrap();
    assert_eq!(e.variant, ErrorVariant::FailedFunction);
    let e = chain.eval(&AnyObject::new(4u32)).err().unwrap();
    assert_eq!(e.variant, ErrorVariant::FailedCast);
    Ok(())
}

#[test]
fn erased_functions_that_do_not_fit_fail_before_the_second_runs() {
    let first = Function::new(double).into_any::<i32, i64>();
    let called = Rc::new(std::cell::Cell::new(false));
    let flag = called.clone();
    let second = Function::new(move |v: &Vec<i64>| {
        flag.set(true);
        length(v)
    })
    .into_any::<Vec<i64>, u32>();
    let chain = make_chain(second, first);
    let e = chain.eval(&AnyObject::new(1i32)).err().unwrap();
    assert_eq!(e.variant, ErrorVariant::FailedCast);
    assert_eq!(e.message.unwrap(), "Failed downcast_ref of AnyBox to Vec<i64>");
    assert!(!called.get());
}

#[test]
fn a_function_of_a_carried_argument_has_its_result_carried() -> Fallible<()> {
    let count = |arg: &AnyObject| -> Fallible<u32> {
        let v: Vec<i64> = arg.downcast_ref()?;
        Ok(v.len() as u32)
    };
    let erased = Function::new(count).into_any_out::<u32>();
    let out: u32 = erased.eval(&AnyObject::new(vec![5i64, 6, 7]))?.downcast()?;
    assert_eq!(out, 3);
    let e = erased.eval(&AnyObject::new(5i64)).err().unwrap();
    assert_eq!(e.variant, ErrorVariant::FailedCast);
    Ok(())
}

#[test]
fn an_erased_relation_unwraps_both_distances() -> Fallible<()> {
    let relation = Rc::new(|d_in: &u32, d_out: &i64| -> Fallible<bool> { Ok(*d_out >= 10 * (*d_in as i64)) });
    let erased = make_any_relation::<u32, i64, AnyMetricDistance, AnyMeasureDistance, _>(&relation);
    assert!(erased(&AnyMetricDistance::new(2u32), &AnyMeasureDistance::new(20i64))?);
    assert!(!erased(&AnyMetricDistance::new(2u32), &AnyMeasureDistance::new(19i64))?);
    let e = erased(&AnyMetricDistance::new(2u64), &AnyMeasureDistance::new(20i64)).err().unwrap();
    assert_eq!(e.variant, ErrorVariant::FailedCast);
    assert_eq!(e.message.unwrap(), "Failed downcast_ref of AnyBox to u32");
    let e = erased(&AnyMetricDistance::new(2u32), &AnyMeasureDistance::new(20i32)).err().unwrap();
    assert_eq!(e.message.unwrap(), "Failed downcast_ref of AnyBox to i64");
    let e = erased(&AnyMetricDistance::new(2u64), &AnyMeasureDistance::new(20i32)).err().unwrap();
    assert_eq!(e.message.unwrap(), "Failed downcast_ref of AnyBox to u32");
    Ok(())
}

#[test]
fn erasing_shares_the_relation_and_does_not_consume_it() -> Fallible<()> {
    let relation = Rc::new(|d_in: &u32, d_out: &u32| -> Fallible<bool> { Ok(d_out >= d_in) });
    assert_eq!(Rc::strong_count(&relation), 1);
    let first = make_any_relation::<u32, u32, AnyMetricDistance, AnyMetricDistance, _>(&relation);
    assert_eq!(Rc::strong_count(&relation), 2);
    let second = make_any_relation::<u32, u32, AnyMetricDistance, AnyMetricDistance, _>(&relation);
    assert_eq!(Rc::strong_count(&relation), 3);
    assert!(first(&AnyMetricDistance::new(1u32), &AnyMetricDistance::new(1u32))?);
    assert!(!second(&AnyMetricDistance::new(2u32), &AnyMetricDistance::new(1u32))?);
    assert!(relation(&1, &2)?);
    drop(first);
    assert_eq!(Rc::strong_count(&relation), 2);
    Ok(())
}

fn tenfold(d_in: &u32) -> Fallible<Box<i64>> {
    if *d_in > 1000 {
        Err(failure(ErrorVariant::InvalidDistance, "too far"))
    } else {
        Ok(Box::new(10 * (*d_in as i64)))
    }
}

fn tenth(d_out: &i64) -> Fallible<Box<u32>> {
    Ok(Box::new((*d_out / 10) as u32))
}

#[test]
fn an_erased_map_carries_the_distance_it_gives() -> Fallible<()> {
    let map = Some(Rc::new(tenfold));
    let erased = make_any_map::<u32, i64, AnyMetricDistance, _>(&map).unwrap();
    let d_out: i64 = erased(&AnyMetricDistance::new(7u32))?.downcast_ref()?;
    assert_eq!(d_out, 70);
    let e = erased(&AnyMetricDistance::new(7u8)).err().unwrap();
    assert_eq!(e.variant, ErrorVariant::FailedCast);
    assert_eq!(e.message.unwrap(), "Failed downcast_ref of AnyBox to u32");
    let e = erased(&AnyMetricDistance::new(1001u32)).err().unwrap();
    assert_eq!(e.variant, ErrorVariant::InvalidDistance);
    assert_eq!(e.message.unwrap(), "too far");

    let none: Option<Rc<fn(&u32) -> Fallible<Box<i64>>>> = None;
    assert!(make_any_map::<u32, i64, AnyMetricDistance, _>(&none).is_none());
    Ok(())
}

fn at_least_tenfold(d_in: &u32, d_out: &i64) -> Fallible<bool> {
    Ok(*d_out >= 10 * (*d_in as i64))
}

#[test]
fn an_erased_relation_carrier_keeps_the_maps_it_had() -> Fallible<()> {
    let erased = StabilityRelation::new_all(at_least_tenfold, Some(tenfold), None::<fn(&i64) -> Fallible<Box<u32>>>)
        .into_any::<u32, i64>();
    assert!(erased.forward_map.is_some());
    assert!(erased.backward_map.is_none());
    assert!((erased.relation)(&AnyMetricDistance::new(1u32), &AnyMetricDistance::new(10i64))?);
    let forward = erased.forward_map.unwrap();
    let d_out: i64 = forward(&AnyMetricDistance::new(3u32))?.downcast_ref()?;
    assert_eq!(d_out, 30);

    let erased =
        StabilityRelation::new_all(at_least_tenfold, None::<fn(&u32) -> Fallible<Box<i64>>>, Some(tenth))
            .into_any::<u32, i64>();
    assert!(erased.forward_map.is_none());
    let backward = erased.backward_map.unwrap();
    let d_in: u32 = backward(&AnyMetricDistance::new(35i64))?.downcast_ref()?;
    assert_eq!(d_in, 3);
    let e = backward(&AnyMetricDistance::new(35u32)).err().unwrap();
    assert_eq!(e.message.unwrap(), "Failed downcast_ref of AnyBox to i64");

    let erased = PrivacyRelation::new_all(at_least_tenfold, Some(tenth)).into_any::<u32, i64>();
    assert!(!(erased.relation)(&AnyMetricDistance::new(1u32), &AnyMeasureDistance::new(9i64))?);
    let backward = erased.backward_map.unwrap();
    let d_in: u32 = backward(&AnyMeasureDistance::new(100i64))?.downcast_ref()?;
    assert_eq!(d_in, 10);
    let erased = PrivacyRelation::new_all(at_least_tenfold, None::<fn(&i64) -> Fallible<Box<u32>>>)
        .into_any::<u32, i64>();
    assert!(erased.backward_map.is_none());
    Ok(())
}
