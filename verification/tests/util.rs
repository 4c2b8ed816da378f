use opendp_ffi::dist::{L1Distance, L2Distance, SubstituteDistance};
use opendp_ffi::dom::{AllDomain, BoundedDomain, VectorDomain};
use opendp_ffi::erase::Erasable;
use opendp::error::{Error, ErrorVariant};
use opendp_ffi::error::{failed_cast, failure};
use opendp_ffi::float::{Float32, Float64, Order};
use opendp_ffi::util::{Atom, DomainKind, MeasureKind, MetricKind, Type};
use opendp_ffi::value::{Scalar, Value};

const ATOMS: [Atom; 12] = [
    Atom::Bool,
    Atom::U8,
    Atom::U16,
    Atom::U32,
    Atom::U64,
    Atom::I8,
    Atom::I16,
    Atom::I32,
    Atom::I64,
    Atom::F32,
    Atom::F64,
    Atom::String,
];

#[test]
fn a_descriptor_parses_to_its_type() {
    for a in ATOMS.iter() {
        for t in [Type::Atom(*a), Type::Pair(*a), Type::Vector(*a)] {
            let text = t.to_string();
            assert_eq!(Type::try_from(&text).unwrap(), t, "{}", text);
        }
    }
}

#[test]
fn descriptors_are_written_as_types_are() {
    assert_eq!(Type::Atom(Atom::F64).to_string(), "f64");
    assert_eq!(Type::Atom(Atom::String).to_string(), "String");
    assert_eq!(Type::Atom(Atom::Bool).to_string(), "bool");
    assert_eq!(Type::Pair(Atom::F64).to_string(), "(f64, f64)");
    assert_eq!(Type::Vector(Atom::I32).to_string(), "Vec<i32>");
    assert_eq!(Type::Domain(DomainKind::All, Atom::U8).to_string(), "AllDomain<u8>");
    assert_eq!(Type::Domain(DomainKind::Bounded, Atom::I64).to_string(), "BoundedDomain<i64>");
    assert_eq!(Type::Domain(DomainKind::VectorAll, Atom::F32).to_string(), "VectorDomain<AllDomain<f32>>");
    assert_eq!(
        Type::Domain(DomainKind::VectorBounded, Atom::F64).to_string(),
        "VectorDomain<BoundedDomain<f64>>"
    );
    assert_eq!(Type::Metric(MetricKind::Symmetric).to_string(), "SymmetricDistance");
    assert_eq!(Type::Metric(MetricKind::Substitute).to_string(), "SubstituteDistance");
    assert_eq!(Type::Metric(MetricKind::Absolute(Atom::F64)).to_string(), "AbsoluteDistance<f64>");
    assert_eq!(Type::Metric(MetricKind::L1(Atom::I32)).to_string(), "L1Distance<i32>");
    assert_eq!(Type::Metric(MetricKind::L2(Atom::U16)).to_string(), "L2Distance<u16>");
    assert_eq!(Type::Measure(MeasureKind::MaxDivergence(Atom::F64)).to_string(), "MaxDivergence<f64>");
    assert_eq!(
        Type::Measure(MeasureKind::SmoothedMaxDivergence(Atom::F32)).to_string(),
        "SmoothedMaxDivergence<f32>"
    );
}

#[test]
fn a_text_that_names_no_plain_type_is_a_parse_error() {
    for text in [
        "not_a_real_type",
        "",
        "f64 ",
        "Vec<f64",
        "Vec<>",
        "Vec<Vec<f64>>",
        "(f64,f64)",
        "(f64, i32)",
        "(f64, f64",
        "AllDomain<f64>",
        "SymmetricDistance",
        "MaxDivergence<f64>",
        "string",
        "f64\n",
    ] {
        let e: Error = Type::try_from(text).err().unwrap();
        assert_eq!(e.variant, ErrorVariant::TypeParse, "{:?}", text);
        assert_eq!(e.message.unwrap(), "the text names no type that can be carried");
    }
}

#[test]
fn each_type_has_its_tag() {
    assert_eq!(<bool as Erasable>::tag(), Type::Atom(Atom::Bool));
    assert_eq!(<u8 as Erasable>::tag(), Type::Atom(Atom::U8));
    assert_eq!(<u16 as Erasable>::tag(), Type::Atom(Atom::U16));
    assert_eq!(<u32 as Erasable>::tag(), Type::Atom(Atom::U32));
    assert_eq!(<u64 as Erasable>::tag(), Type::Atom(Atom::U64));
    assert_eq!(<i8 as Erasable>::tag(), Type::Atom(Atom::I8));
    assert_eq!(<i16 as Erasable>::tag(), Type::Atom(Atom::I16));
    assert_eq!(<i32 as Erasable>::tag(), Type::Atom(Atom::I32));
    assert_eq!(<i64 as Erasable>::tag(), Type::Atom(Atom::I64));
    assert_eq!(<Float32 as Erasable>::tag(), Type::Atom(Atom::F32));
    assert_eq!(<Float64 as Erasable>::tag(), Type::Atom(Atom::F64));
    assert_eq!(<String as Erasable>::tag(), Type::Atom(Atom::String));
    assert_eq!(<(i8, i8) as Erasable>::tag(), Type::Pair(Atom::I8));
    assert_eq!(<Vec<Float32> as Erasable>::tag(), Type::Vector(Atom::F32));
    assert_eq!(<Vec<String> as Erasable>::tag(), Type::Vector(Atom::String));
    assert_eq!(<AllDomain<String> as Erasable>::tag(), Type::Domain(DomainKind::All, Atom::String));
    assert_eq!(<BoundedDomain<u64> as Erasable>::tag(), Type::Domain(DomainKind::Bounded, Atom::U64));
    assert_eq!(
        <VectorDomain<AllDomain<i16>> as Erasable>::tag(),
        Type::Domain(DomainKind::VectorAll, Atom::I16)
    );
    assert_eq!(
        <VectorDomain<BoundedDomain<i16>> as Erasable>::tag(),
        Type::Domain(DomainKind::VectorBounded, Atom::I16)
    );
    assert_eq!(<SubstituteDistance as Erasable>::tag(), Type::Metric(MetricKind::Substitute));
    assert_eq!(<L1Distance<u8> as Erasable>::tag(), Type::Metric(MetricKind::L1(Atom::U8)));
    assert_eq!(<L2Distance<Float64> as Erasable>::tag(), Type::Metric(MetricKind::L2(Atom::F64)));
}

#[test]
fn the_tag_of_a_type_is_found_by_naming_it() {
    assert_eq!(Type::of::<i32>(), Type::Atom(Atom::I32));
    assert_eq!(Type::of::<(Float64, Float64)>(), Type::Pair(Atom::F64));
    assert_eq!(Type::of::<Vec<String>>(), Type::Vector(Atom::String));
    assert_eq!(Type::of::<BoundedDomain<u8>>(), Type::Domain(DomainKind::Bounded, Atom::U8));
    assert_eq!(Type::of::<SubstituteDistance>(), Type::Metric(MetricKind::Substitute));
}

#[test]
fn an_erased_value_is_of_the_type_it_came_from() {
    assert_eq!(7u8.erase().type_of(), Type::Atom(Atom::U8));
    assert_eq!((Float32::from_bits(0), Float32::from_bits(1)).erase().type_of(), Type::Pair(Atom::F32));
    assert_eq!(Vec::<i64>::new().erase().type_of(), Type::Vector(Atom::I64));
    assert_eq!("".to_owned().erase().type_of(), Type::Atom(Atom::String));
    assert_eq!(vec!["a".to_owned()].erase().type_of(), Type::Vector(Atom::String));
    assert_eq!(L1Distance::<i8>::default().erase().type_of(), Type::Metric(MetricKind::L1(Atom::I8)));
    assert!(u16::recover(&Value::Scalar(Scalar::U16(9))) == Some(9));
    assert!(u16::recover(&Value::Scalar(Scalar::I16(9))).is_none());
    assert!(<(u16, u16)>::recover(&Value::Scalar(Scalar::U16(9))).is_none());
}

#[test]
fn the_family_of_numbers() {
    for a in ATOMS {
        assert_eq!(a.is_numeric(), a != Atom::Bool && a != Atom::String);
        assert_eq!(a.is_floating(), a == Atom::F32 || a == Atom::F64);
    }
    assert_eq!(DomainKind::VectorBounded.carrier_of(Atom::U8), Type::Vector(Atom::U8));
    assert_eq!(DomainKind::Bounded.carrier_of(Atom::U8), Type::Atom(Atom::U8));
    assert_eq!(MetricKind::Symmetric.distance_of(), Type::Atom(Atom::U32));
    assert_eq!(MeasureKind::SmoothedMaxDivergence(Atom::F64).distance_of(), Type::Pair(Atom::F64));
}

#[test]
fn errors_carry_their_kind_and_their_message() {
    let e = failure(ErrorVariant::TypeParse, "x");
    assert_eq!(e.variant, ErrorVariant::TypeParse);
    assert_eq!(e.message.unwrap(), "x");
    assert_eq!(failure(ErrorVariant::MakeMeasurement, "").message.unwrap(), "");
    let e = failed_cast("no ", "u8");
    assert_eq!(e.variant, ErrorVariant::FailedCast);
    assert_eq!(e.message.unwrap(), "no u8");
    assert_eq!(failed_cast("", "").message.unwrap(), "");
    assert_eq!(failure(ErrorVariant::FailedCast, "m").to_string(), "FailedCast");
}

fn order(a: f64, b: f64) -> Option<Order> {
    Float64::from_bits(a.to_bits()).compare(&Float64::from_bits(b.to_bits()))
}

fn native(o: Option<std::cmp::Ordering>) -> Option<Order> {
    match o {
        Some(std::cmp::Ordering::Less) => Some(Order::Less),
        Some(std::cmp::Ordering::Equal) => Some(Order::Equal),
        Some(std::cmp::Ordering::Greater) => Some(Order::Greater),
        None => None,
    }
}

#[test]
fn numbers_by_their_bits_are_ordered_as_numbers() {
    let samples = [
        0.0,
        -0.0,
        1.0,
        -1.0,
        1.5,
        -1.5,
        f64::MIN_POSITIVE,
        -f64::MIN_POSITIVE,
        5e-324,
        f64::MAX,
        f64::MIN,
        f64::INFINITY,
        f64::NEG_INFINITY,
        f64::NAN,
        -f64::NAN,
        6.0,
        10.0,
    ];
    for a in samples {
        for b in samples {
            assert_eq!(order(a, b), native(a.partial_cmp(&b)), "{} {}", a, b);
            let x = Float64::from_bits(a.to_bits());
            let y = Float64::from_bits(b.to_bits());
            assert_eq!(x.native_eq(&y), a == b, "{} {}", a, b);
            assert_eq!(x.is_nan(), a.is_nan());
            let (c, d) = (a as f32, b as f32);
            let x = Float32::from_bits(c.to_bits());
            let y = Float32::from_bits(d.to_bits());
            assert_eq!(x.compare(&y), native(c.partial_cmp(&d)), "{} {}", c, d);
            assert_eq!(x.native_eq(&y), c == d, "{} {}", c, d);
            assert_eq!(x.is_nan(), c.is_nan());
        }
    }
    assert_eq!(order(0.0, -0.0), Some(Order::Equal));
    assert_eq!(order(f64::NAN, f64::NAN), None);
    assert_eq!(order(-1.0, 1.0), Some(Order::Less));
    assert_eq!(order(-1.0, -2.0), Some(Order::Greater));
    assert_eq!(Float64::from_bits(0x4018_0000_0000_0000).to_bits(), 6.0f64.to_bits());
}
