use opendp_ffi::any::{AnyBox, AnyBoxClonePartialEq, AnyBoxClonePartialEqDebug, AnyDomain, AnyMeasure, AnyMetric, AnyObject, Downcast};
use opendp_ffi::dist::{AbsoluteDistance, MaxDivergence, SmoothedMaxDivergence, SubstituteDistance, SymmetricDistance};
use opendp_ffi::dom::{AllDomain, BoundedDomain, DataFrameDomain, SizedDomain, VectorDomain};
use opendp::error::{ErrorVariant, Fallible};
use opendp_ffi::float::Float64;
use opendp_ffi::util::{Atom, Type};

fn float(x: f64) -> Float64 {
    Float64::from_bits(x.to_bits())
}

#[test]
fn test_any_domain() -> Fallible<()> {
    let domain1 = BoundedDomain::new_closed((0, 1))?;
    let domain2 = BoundedDomain::new_closed((0, 1))?;
    assert_eq!(domain1, domain2);

    let domain1 = AnyDomain::new(BoundedDomain::new_closed((0, 1))?);
    let domain2 = AnyDomain::new(BoundedDomain::new_closed((0, 1))?);
    let domain3 = AnyDomain::new(AllDomain::<i32>::new());
    assert_eq!(domain1, domain2);
    assert_ne!(domain1, domain3);

    let _domain1: BoundedDomain<i32> = domain1.downcast()?;
    let domain3: Fallible<BoundedDomain<i32>> = domain3.downcast();
    assert_eq!(domain3.err().unwrap().variant, ErrorVariant::FailedCast);
    Ok(())
}

#[test]
fn test_any_metric() -> Fallible<()> {
    let metric1 = SymmetricDistance::default();
    let metric2 = SymmetricDistance::default();
    assert_eq!(metric1, metric2);

    let metric1 = AnyMetric::new(SymmetricDistance::default());
    let metric2 = AnyMetric::new(SymmetricDistance::default());
    let metric3 = AnyMetric::new(SubstituteDistance::default());
    assert_eq!(metric1, metric2);
    assert_ne!(metric1, metric3);

    let _metric1: SymmetricDistance = metric1.downcast()?;
    let metric3: Fallible<SymmetricDistance> = metric3.downcast();
    assert_eq!(metric3.err().unwrap().variant, ErrorVariant::FailedCast);
    Ok(())
}

#[test]
fn test_any_measure() -> Fallible<()> {
    let measure1 = MaxDivergence::<Float64>::default();
    let measure2 = MaxDivergence::<Float64>::default();
    assert_eq!(measure1, measure2);

    let measure1 = AnyMeasure::new(MaxDivergence::<Float64>::default());
    let measure2 = AnyMeasure::new(MaxDivergence::<Float64>::default());
    let measure3 = AnyMeasure::new(SmoothedMaxDivergence::<Float64>::default());
    assert_eq!(measure1, measure2);
    assert_ne!(measure1, measure3);

    let _measure1: MaxDivergence<Float64> = measure1.downcast()?;
    let measure3: Fallible<MaxDivergence<Float64>> = measure3.downcast();
    assert_eq!(measure3.err().unwrap().variant, ErrorVariant::FailedCast);
    Ok(())
}

#[test]
fn round_trip_gives_the_value_back() -> Fallible<()> {
    let x: i32 = AnyBox::new(-7i32).downcast()?;
    assert_eq!(x, -7);
    let p: (u8, u8) = AnyBox::new((3u8, 250u8)).downcast()?;
    assert_eq!(p, (3, 250));
    let v: Vec<i64> = AnyObject::new(vec![1i64, -2, 3]).downcast()?;
    assert_eq!(v, vec![1, -2, 3]);
    let s: String = AnyObject::new("a, b".to_owned()).downcast()?;
    assert_eq!(s, "a, b");
    let t: Vec<String> = AnyObject::new(vec!["x".to_owned(), "".to_owned()]).downcast()?;
    assert_eq!(t, vec!["x".to_owned(), "".to_owned()]);
    let f: Float64 = AnyObject::new(float(6.0)).downcast()?;
    assert_eq!(f64::from_bits(f.to_bits()), 6.0);
    let b: bool = AnyBox::new(true).downcast()?;
    assert!(b);
    let e: Vec<u16> = AnyBox::new(Vec::<u16>::new()).downcast()?;
    assert!(e.is_empty());
    Ok(())
}

#[test]
fn downcast_ref_keeps_the_container() -> Fallible<()> {
    let object = AnyObject::new(vec![1u32, 2, 3]);
    let first: Vec<u32> = object.downcast_ref()?;
    let second: Vec<u32> = object.downcast_ref()?;
    assert_eq!(first, vec![1, 2, 3]);
    assert_eq!(second, first);
    assert_eq!(object.type_of(), Type::Vector(Atom::U32));
    Ok(())
}

#[test]
fn cast_to_another_type_fails() {
    let wrong: Fallible<i64> = AnyBox::new(5i32).downcast();
    let e = wrong.err().unwrap();
    assert_eq!(e.variant, ErrorVariant::FailedCast);
    assert_eq!(e.message.unwrap(), "Failed downcast of AnyBox to i64");

    let object = AnyObject::new(vec![1.5f64.to_bits()]);
    let wrong: Fallible<Vec<Float64>> = object.downcast_ref();
    let e = wrong.err().unwrap();
    assert_eq!(e.variant, ErrorVariant::FailedCast);
    assert_eq!(e.message.unwrap(), "Failed downcast_ref of AnyBox to Vec<f64>");

    let wrong: Fallible<(u64, u64)> = object.downcast_ref();
    assert_eq!(wrong.err().unwrap().message.unwrap(), "Failed downcast_ref of AnyBox to (u64, u64)");
    let wrong: Fallible<u64> = object.downcast_ref();
    assert_eq!(wrong.err().unwrap().variant, ErrorVariant::FailedCast);
    let right: Fallible<Vec<u64>> = object.downcast();
    assert!(right.is_ok());

    let empty = AnyBox::new(Vec::<i8>::new());
    let wrong: Fallible<Vec<u8>> = empty.downcast();
    assert_eq!(wrong.err().unwrap().variant, ErrorVariant::FailedCast);
}

#[test]
fn containers_of_different_types_are_not_equal() {
    let a = AnyBoxClonePartialEq::new_clone_partial_eq(1i32);
    let b = AnyBoxClonePartialEq::new_clone_partial_eq(1i64);
    let c = AnyBoxClonePartialEq::new_clone_partial_eq(1i32);
    let d = AnyBoxClonePartialEq::new_clone_partial_eq(2i32);
    assert!(a != b);
    assert!(a == c);
    assert!(a != d);
    let v = AnyBoxClonePartialEq::new_clone_partial_eq(vec![1i32]);
    let w = AnyBoxClonePartialEq::new_clone_partial_eq(vec![1i32, 1]);
    assert!(v != w);
    assert!(a != v);
    let s = AnyBoxClonePartialEq::new_clone_partial_eq("1".to_owned());
    assert!(s != a);
    assert!(s == AnyBoxClonePartialEq::new_clone_partial_eq("1".to_owned()));
}

#[test]
fn duplicate_equals_original_unless_nan() -> Fallible<()> {
    let original = AnyBoxClonePartialEq::new_clone_partial_eq(vec![float(1.0), float(-0.0)]);
    let duplicate = original.clone();
    assert!(original == duplicate);
    let zeros = AnyBoxClonePartialEq::new_clone_partial_eq(vec![float(1.0), float(0.0)]);
    assert!(original == zeros);
    let back: Vec<Float64> = duplicate.downcast()?;
    assert_eq!(back[1].to_bits(), (-0.0f64).to_bits());

    let nan = AnyBoxClonePartialEq::new_clone_partial_eq(float(f64::NAN));
    let copy = nan.clone();
    assert!(nan != copy);
    let kept: Float64 = copy.downcast()?;
    assert_eq!(kept.to_bits(), f64::NAN.to_bits());
    Ok(())
}

#[test]
fn format_gives_the_text_of_the_value_held() {
    let number = AnyBoxClonePartialEqDebug::new_clone_partial_eq_debug(5i32);
    assert_eq!(number.format::<i32, _>(|x| format!("{:?}", x)).unwrap(), "5");
    let e = number.format::<i64, _>(|x| format!("{:?}", x)).err().unwrap();
    assert_eq!(e.variant, ErrorVariant::FailedCast);
    assert_eq!(e.message.unwrap(), "Failed downcast_ref of AnyBox to i64");

    let vector = AnyBoxClonePartialEqDebug::new_clone_partial_eq_debug(vec![1i8, -2, 3]);
    assert_eq!(vector.format::<Vec<i8>, _>(|x| format!("{:?}", x)).unwrap(), "[1, -2, 3]");
    let text = AnyBoxClonePartialEqDebug::new_clone_partial_eq_debug("a\"b".to_owned());
    assert_eq!(text.format::<String, _>(|x| format!("{:?}", x)).unwrap(), "\"a\\\"b\"");
    let pair = AnyBoxClonePartialEqDebug::new_clone_partial_eq_debug((float(0.5), float(-2.0)));
    let native = |x: &(Float64, Float64)| format!("{:?}", (f64::from_bits(x.0.to_bits()), f64::from_bits(x.1.to_bits())));
    assert_eq!(pair.format::<(Float64, Float64), _>(native).unwrap(), "(0.5, -2.0)");
    let duplicate = number.clone();
    assert_eq!(duplicate.format::<i32, _>(|x| format!("{:?}", x)).unwrap(), "5");

    let native = opendp::dom::AllDomain::<u8>::new();
    let domain = AnyDomain::new(AllDomain::<u8>::new());
    assert_eq!(domain.format::<AllDomain<u8>, _>(|_| format!("{:?}", native)).unwrap(), "AllDomain()");
    let e = domain.format::<AllDomain<i8>, _>(|_| format!("{:?}", native)).err().unwrap();
    assert_eq!(e.message.unwrap(), "Failed downcast_ref of AnyBox to AllDomain<i8>");
    let native = opendp::dom::VectorDomain::new(opendp::dom::BoundedDomain::<i16>::new_closed((1, 2)).unwrap());
    let vectors = AnyDomain::new(VectorDomain::new(BoundedDomain::new_closed((1i16, 2i16)).unwrap()));
    assert_eq!(
        vectors.format::<VectorDomain<BoundedDomain<i16>>, _>(|_| format!("{:?}", native)).unwrap(),
        "VectorDomain(BoundedDomain())"
    );
    let metric = AnyMetric::new(SymmetricDistance::default());
    let native = opendp::dist::SymmetricDistance::default();
    assert_eq!(metric.format::<SymmetricDistance, _>(|_| format!("{:?}", native)).unwrap(), "SymmetricDistance()");
    assert!(metric.format::<AbsoluteDistance<u8>, _>(|_| String::new()).is_err());
    let measure = AnyMeasure::new(SmoothedMaxDivergence::<Float64>::default());
    let native = opendp::dist::SmoothedMaxDivergence::<f64>::default();
    assert_eq!(
        measure.format::<SmoothedMaxDivergence<Float64>, _>(|_| format!("{:?}", native)).unwrap(),
        "SmoothedMaxDivergence()"
    );
    assert!(measure.format::<MaxDivergence<Float64>, _>(|_| String::new()).is_err());
}

#[test]
fn carriers_know_the_type_of_their_values() {
    assert_eq!(AnyDomain::new(AllDomain::<i32>::new()).carrier_type(), Type::Atom(Atom::I32));
    let vectors = AnyDomain::new(VectorDomain::new(BoundedDomain::new_closed((float(0.0), float(10.0))).unwrap()));
    assert_eq!(vectors.carrier_type(), Type::Vector(Atom::F64));
    assert_eq!(AnyMetric::new(SymmetricDistance::default()).distance_type(), Type::Atom(Atom::U32));
    assert_eq!(AnyMetric::new(AbsoluteDistance::<Float64>::default()).distance_type(), Type::Atom(Atom::F64));
    assert_eq!(AnyMeasure::new(MaxDivergence::<Float64>::default()).distance_type(), Type::Atom(Atom::F64));
    assert_eq!(AnyMeasure::new(SmoothedMaxDivergence::<Float64>::default()).distance_type(), Type::Pair(Atom::F64));
}

#[test]
fn bounds_in_the_wrong_order_are_refused() {
    let refused = BoundedDomain::new_closed((2i32, 1i32));
    let e = refused.err().unwrap();
    assert_eq!(e.variant, ErrorVariant::MakeTransformation);
    assert_eq!(e.message.unwrap(), "lower bound may not be greater than upper bound");
    assert!(BoundedDomain::new_closed((1i32, 1i32)).is_ok());
    assert!(BoundedDomain::new_closed((float(f64::NAN), float(1.0))).is_ok());
    assert!(BoundedDomain::new_closed((float(0.5), float(-0.5))).is_err());
}

fn number(x: &Float64) -> f64 {
    f64::from_bits(x.to_bits())
}

fn numbers(v: &Vec<Float64>) -> Vec<f64> {
    v.iter().map(number).collect()
}

#[test]
fn membership_asks_for_the_carrier_type() -> Fallible<()> {
    let native = opendp::dom::BoundedDomain::<i32>::new_closed((0, 10))?;
    let test = |_: &BoundedDomain<i32>, v: &i32| opendp::core::Domain::member(&native, v);
    let bounded = AnyDomain::new(BoundedDomain::new_closed((0i32, 10i32))?);
    assert!(bounded.member(&AnyObject::new(0i32), test)?);
    assert!(bounded.member(&AnyObject::new(10i32), test)?);
    assert!(!bounded.member(&AnyObject::new(11i32), test)?);
    assert!(!bounded.member(&AnyObject::new(-1i32), test)?);
    let e = bounded.member(&AnyObject::new(5i64), test).err().unwrap();
    assert_eq!(e.variant, ErrorVariant::FailedCast);
    assert_eq!(e.message.unwrap(), "Failed downcast_ref of AnyBox to i32");
    assert!(bounded.member(&AnyObject::new(vec![5i32]), test).is_err());
    let e = bounded
        .member::<AllDomain<i32>, _>(&AnyObject::new(5i32), |_, _| Ok(true))
        .err()
        .unwrap();
    assert_eq!(e.variant, ErrorVariant::FailedCast);
    assert_eq!(e.message.unwrap(), "Failed downcast_ref of AnyBox to AllDomain<i32>");

    let native = opendp::dom::AllDomain::<f64>::new();
    let test = |_: &AllDomain<Float64>, v: &Float64| opendp::core::Domain::member(&native, &number(v));
    let all = AnyDomain::new(AllDomain::<Float64>::new());
    assert!(all.member(&AnyObject::new(float(1.0)), test)?);
    assert!(!all.member(&AnyObject::new(float(f64::NAN)), test)?);

    let native = opendp::dom::VectorDomain::new(opendp::dom::BoundedDomain::<f64>::new_closed((0.0, 10.0))?);
    let test =
        |_: &VectorDomain<BoundedDomain<Float64>>, v: &Vec<Float64>| opendp::core::Domain::member(&native, &numbers(v));
    let vectors = AnyDomain::new(VectorDomain::new(BoundedDomain::new_closed((float(0.0), float(10.0)))?));
    assert!(vectors.member(&AnyObject::new(vec![float(1.0), float(2.0), float(3.0)]), test)?);
    assert!(vectors.member(&AnyObject::new(Vec::<Float64>::new()), test)?);
    assert!(!vectors.member(&AnyObject::new(vec![float(1.0), float(10.5)]), test)?);
    assert!(!vectors.member(&AnyObject::new(vec![float(f64::NAN)]), test)?);
    assert!(vectors.member(&AnyObject::new(float(1.0)), test).is_err());

    let native = opendp::dom::AllDomain::<String>::new();
    let test = |_: &AllDomain<String>, v: &String| opendp::core::Domain::member(&native, v);
    let texts = AnyDomain::new(AllDomain::<String>::new());
    assert!(texts.member(&AnyObject::new("abc".to_owned()), test)?);
    assert!(texts.member(&AnyObject::new(1u8), test).is_err());
    Ok(())
}

#[test]
fn the_failure_of_a_membership_test_passes_through() {
    let domain = AnyDomain::new(AllDomain::<u8>::new());
    let failing = |_: &AllDomain<u8>, _: &u8| -> Fallible<bool> {
        Err(opendp_ffi::error::failure(ErrorVariant::FailedFunction, "no test"))
    };
    let e = domain.member(&AnyObject::new(1u8), failing).err().unwrap();
    assert_eq!(e.variant, ErrorVariant::FailedFunction);
    assert_eq!(e.message.unwrap(), "no test");
}

#[test]
fn duplicated_domain_is_the_same_domain() -> Fallible<()> {
    let domain = AnyDomain::new(BoundedDomain::new_closed((0u8, 9u8))?);
    let copy = domain.clone();
    assert!(domain == copy);
    let native = opendp::dom::BoundedDomain::<u8>::new_closed((0, 9))?;
    assert!(copy.member(&AnyObject::new(9u8), |_: &BoundedDomain<u8>, v: &u8| opendp::core::Domain::member(&native, v))?);
    let back: BoundedDomain<u8> = copy.downcast_ref()?;
    assert_eq!(back, BoundedDomain::new_closed((0u8, 9u8))?);
    assert!(domain != AnyDomain::new(BoundedDomain::new_closed((0u8, 8u8))?));
    assert!(domain != AnyDomain::new(BoundedDomain::new_closed((0i8, 9i8))?));
    Ok(())
}

#[test]
fn data_frames_are_carried_duplicated_and_compared() -> Fallible<()> {
    let mut frame = std::collections::HashMap::new();
    frame.insert("a".to_owned(), opendp::data::Column::new(vec![1.5f64, f64::NAN]));
    frame.insert("b".to_owned(), opendp::data::Column::new(vec!["x".to_owned()]));
    let mut plain = std::collections::HashMap::new();
    plain.insert("a".to_owned(), opendp::data::Column::new(vec![1i32, 2]));

    let carried = AnyBoxClonePartialEq::new_clone_partial_eq(plain.clone());
    let copy = carried.clone();
    assert!(carried == copy);
    assert!(carried != AnyBoxClonePartialEq::new_clone_partial_eq(frame.clone()));
    assert!(carried != AnyBoxClonePartialEq::new_clone_partial_eq(1i32));
    let back: std::collections::HashMap<String, opendp::data::Column> = copy.downcast()?;
    assert!(back == plain);
    let wrong: Fallible<Vec<i32>> = carried.downcast_ref();
    assert_eq!(wrong.err().unwrap().variant, ErrorVariant::FailedCast);

    let with_nan = AnyBoxClonePartialEq::new_clone_partial_eq(frame);
    assert!(with_nan != with_nan.clone());
    assert_eq!(AnyObject::new(plain).type_of(), Type::DataFrame);
    Ok(())
}

#[test]
fn sized_domains_keep_their_size() -> Fallible<()> {
    let three = AnyDomain::new(SizedDomain::new(VectorDomain::new(BoundedDomain::new_closed((0i32, 10i32))?), 3));
    let four = AnyDomain::new(SizedDomain::new(VectorDomain::new(BoundedDomain::new_closed((0i32, 10i32))?), 4));
    let unsized_ = AnyDomain::new(VectorDomain::new(BoundedDomain::new_closed((0i32, 10i32))?));
    assert!(three != four);
    assert!(three != unsized_);
    assert!(three == three.clone());
    assert_eq!(three.carrier_type(), Type::Vector(Atom::I32));
    let back: SizedDomain<VectorDomain<BoundedDomain<i32>>> = four.downcast()?;
    assert_eq!(back.size, 4);
    let wrong: Fallible<SizedDomain<VectorDomain<AllDomain<i32>>>> = three.downcast_ref();
    assert_eq!(
        wrong.err().unwrap().message.unwrap(),
        "Failed downcast_ref of AnyBox to SizedDomain<VectorDomain<AllDomain<i32>>>"
    );
    let native = opendp::dom::SizedDomain::new(
        opendp::dom::VectorDomain::new(opendp::dom::BoundedDomain::<i32>::new_closed((0, 10))?),
        3,
    );
    let test = |_: &SizedDomain<VectorDomain<BoundedDomain<i32>>>, v: &Vec<i32>| opendp::core::Domain::member(&native, v);
    assert!(three.member(&AnyObject::new(vec![1i32, 2, 3]), test)?);
    assert!(!three.member(&AnyObject::new(vec![1i32, 2, 30]), test)?);
    assert_eq!(
        three.format(|_: &SizedDomain<VectorDomain<BoundedDomain<i32>>>| format!("{:?}", native))?,
        "SizedDomain(VectorDomain(BoundedDomain()), size=3)"
    );
    let all = AnyDomain::new(SizedDomain::new(VectorDomain::new(AllDomain::<Float64>::new()), 2));
    assert_eq!(all.carrier_type(), Type::Vector(Atom::F64));
    assert!(all == AnyDomain::new(SizedDomain::new(VectorDomain::new(AllDomain::<Float64>::new()), 2)));
    assert!(all != AnyDomain::new(SizedDomain::new(VectorDomain::new(AllDomain::<Float64>::new()), 1)));
    let frames = AnyDomain::new(DataFrameDomain::<String>::new());
    assert_eq!(frames.carrier_type(), Type::DataFrame);
    assert!(frames == frames.clone());
    assert!(frames != all);
    Ok(())
}
