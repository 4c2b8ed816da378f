use opendp::trans::{make_bounded_sum, make_sized_bounded_sum};

use opendp_ffi::any::{AnyObject, Downcast};
use opendp_ffi::dispatch::{dispatch_number, dispatch_type};
use opendp_ffi::meas::{
    opendp_meas__bootstrap, opendp_meas__make_base_gaussian, opendp_meas__make_base_laplace,
    opendp_meas__make_base_laplace_vec, select_noise,
};
use opendp_ffi::trans::sum::{opendp_trans__make_bounded_sum, opendp_trans__make_sized_bounded_sum};
use opendp::error::{ErrorVariant, Fallible};
use opendp_ffi::float::Float64;
use opendp_ffi::function::Function;
use opendp_ffi::util::{Atom, Type};
use opendp_ffi::value::{Pair, Scalar};

fn float(x: f64) -> Float64 {
    Float64::from_bits(x.to_bits())
}

fn number(x: &Float64) -> f64 {
    f64::from_bits(x.to_bits())
}

/// The erased function of the instantiation that was selected, built by the
/// constructor of the algorithm library for that numeric type.
fn instantiate(
    atom: Atom,
    size: Option<usize>,
    bounds: Pair,
) -> Fallible<Function<Box<dyn Fn(&AnyObject) -> Fallible<AnyObject>>>> {
    match (atom, bounds) {
        (Atom::F64, Pair::F64((lower, upper))) => {
            let bounds = (number(&lower), number(&upper));
            let function = match size {
                Some(size) => make_sized_bounded_sum::<f64>(size, bounds)?.function.function,
                None => make_bounded_sum::<f64>(bounds)?.function.function,
            };
            let erased = Function::new(move |arg: &Vec<Float64>| {
                let arg: Vec<f64> = arg.iter().map(number).collect();
                function(&arg).map(float)
            })
            .into_any::<Vec<Float64>, Float64>();
            Ok(Function::new(Box::new(erased.function)))
        },
        (Atom::I32, Pair::I32(bounds)) => {
            let function = match size {
                Some(size) => make_sized_bounded_sum::<i32>(size, bounds)?.function.function,
                None => make_bounded_sum::<i32>(bounds)?.function.function,
            };
            let erased = Function::new(move |arg: &Vec<i32>| function(arg))
                .into_any::<Vec<i32>, i32>();
            Ok(Function::new(Box::new(erased.function)))
        },
        _ => panic!("no instantiation is built here for {:?}", atom),
    }
}

#[test]
fn test_make_bounded_sum() -> Fallible<()> {
    let selected = opendp_trans__make_bounded_sum(Some(&AnyObject::new((float(0.), float(10.)))), "f64")?;
    let transformation = instantiate(selected.atom, None, selected.bounds)?;
    let arg = AnyObject::new(vec![float(1.0), float(2.0), float(3.0)]);
    let res = transformation.eval(&arg);
    let res: Float64 = res?.downcast()?;
    assert_eq!(number(&res), 6.0);
    Ok(())
}

#[test]
fn test_make_bounded_sum_n() -> Fallible<()> {
    let selected = opendp_trans__make_sized_bounded_sum(3, Some(&AnyObject::new((float(0.), float(10.)))), "f64")?;
    let transformation = instantiate(selected.atom, Some(selected.size), selected.bounds)?;
    let arg = AnyObject::new(vec![float(1.0), float(2.0), float(3.0)]);
    let res = transformation.eval(&arg);
    let res: Float64 = res?.downcast()?;
    assert_eq!(number(&res), 6.0);
    Ok(())
}

#[test]
fn bounded_sum_of_integers() -> Fallible<()> {
    let selected = opendp_trans__make_bounded_sum(Some(&AnyObject::new((0i32, 10i32))), "i32")?;
    assert_eq!(selected.atom, Atom::I32);
    let transformation = instantiate(selected.atom, None, selected.bounds)?;
    let res: i32 = transformation.eval(&AnyObject::new(vec![1i32, 2, 3, 4, 5]))?.downcast()?;
    assert_eq!(res, 15);
    let wrong = transformation.eval(&AnyObject::new(vec![1i64, 2]));
    assert_eq!(wrong.err().unwrap().variant, ErrorVariant::FailedCast);
    Ok(())
}

#[test]
fn the_constructor_refuses_bounds_in_the_wrong_order() -> Fallible<()> {
    let selected = opendp_trans__make_bounded_sum(Some(&AnyObject::new((float(10.), float(0.)))), "f64")?;
    let refused = instantiate(selected.atom, None, selected.bounds);
    assert_eq!(refused.err().unwrap().variant, ErrorVariant::MakeTransformation);
    Ok(())
}

#[test]
fn every_numeric_tag_selects_its_type() -> Fallible<()> {
    assert_eq!(dispatch_number("u8")?, Atom::U8);
    assert_eq!(dispatch_number("u16")?, Atom::U16);
    assert_eq!(dispatch_number("u32")?, Atom::U32);
    assert_eq!(dispatch_number("u64")?, Atom::U64);
    assert_eq!(dispatch_number("i8")?, Atom::I8);
    assert_eq!(dispatch_number("i16")?, Atom::I16);
    assert_eq!(dispatch_number("i32")?, Atom::I32);
    assert_eq!(dispatch_number("i64")?, Atom::I64);
    assert_eq!(dispatch_number("f32")?, Atom::F32);
    assert_eq!(dispatch_number("f64")?, Atom::F64);
    Ok(())
}

#[test]
fn a_tag_outside_the_family_is_a_parse_error() {
    for tag in ["not_a_real_type", "", "bool", "String", "Vec<f64>", "(f64, f64)", "F64", "f64 ", " f64", "u128", "i3"] {
        let refused = dispatch_number(tag);
        assert_eq!(refused.err().unwrap().variant, ErrorVariant::TypeParse, "{:?}", tag);
    }
    let refused = opendp_trans__make_bounded_sum(Some(&AnyObject::new((float(0.), float(10.)))), "not_a_real_type");
    assert_eq!(refused.err().unwrap().variant, ErrorVariant::TypeParse);
    let refused = opendp_trans__make_sized_bounded_sum(3, Some(&AnyObject::new((0u8, 1u8))), "Vec<u8>");
    assert_eq!(refused.err().unwrap().variant, ErrorVariant::TypeParse);
    let refused = opendp_meas__make_base_laplace("not_a_real_type", float(1.0));
    assert_eq!(refused.err().unwrap().variant, ErrorVariant::TypeParse);
    let refused = opendp_meas__make_base_laplace_vec("double", 3, float(1.0));
    assert_eq!(refused.err().unwrap().variant, ErrorVariant::TypeParse);
    let refused = opendp_meas__make_base_gaussian("", float(1.0));
    assert_eq!(refused.err().unwrap().variant, ErrorVariant::TypeParse);
}

#[test]
fn bounds_of_another_type_fail_the_cast() {
    let refused = opendp_trans__make_bounded_sum(Some(&AnyObject::new((0i32, 10i32))), "f64");
    let e = refused.err().unwrap();
    assert_eq!(e.variant, ErrorVariant::FailedCast);
    assert_eq!(e.message.unwrap(), "Failed downcast_ref of AnyBox to (f64, f64)");
    let refused = opendp_trans__make_bounded_sum(Some(&AnyObject::new(float(1.0))), "f64");
    assert_eq!(refused.err().unwrap().variant, ErrorVariant::FailedCast);
    let refused = opendp_trans__make_sized_bounded_sum(2, Some(&AnyObject::new(vec![0u8, 1u8])), "u8");
    assert_eq!(refused.err().unwrap().message.unwrap(), "Failed downcast_ref of AnyBox to (u8, u8)");
    let refused = opendp_trans__make_bounded_sum(Some(&AnyObject::new((0i32, 10i32))), "nothing");
    assert_eq!(refused.err().unwrap().variant, ErrorVariant::TypeParse);
}

#[test]
fn the_selection_keeps_the_arguments() -> Fallible<()> {
    let selected = opendp_trans__make_sized_bounded_sum(7, Some(&AnyObject::new((3u16, 9u16))), "u16")?;
    assert_eq!(selected.atom, Atom::U16);
    assert_eq!(selected.size, 7);
    assert!(matches!(selected.bounds, Pair::U16((3, 9))));
    assert!(matches!(selected.bounds.lower(), Scalar::U16(3)));
    assert!(matches!(selected.bounds.upper(), Scalar::U16(9)));

    let laplace = opendp_meas__make_base_laplace("f64", float(1.5))?;
    assert_eq!(laplace.atom, Atom::F64);
    assert_eq!(number(&laplace.sigma), 1.5);
    let gaussian = opendp_meas__make_base_gaussian("f32", float(0.0))?;
    assert_eq!(gaussian.atom, Atom::F32);
    assert_eq!(gaussian.sigma.to_bits(), 0);
    let vector = opendp_meas__make_base_laplace_vec("f32", 4, float(2.0))?;
    assert_eq!(vector.atom, Atom::F32);
    assert_eq!(vector.length, 4);
    assert_eq!(number(&vector.sigma), 2.0);
    assert_eq!(select_noise("f64")?, Atom::F64);
    assert_eq!(select_noise("f32")?, Atom::F32);
    Ok(())
}

#[test]
fn noise_is_for_floating_point_types_only() {
    for tag in ["u8", "u16", "u32", "u64", "i8", "i16", "i32", "i64"] {
        let e = select_noise(tag).err().unwrap();
        assert_eq!(e.variant, ErrorVariant::TypeParse, "{:?}", tag);
        assert_eq!(
            e.message.unwrap(),
            "no instantiation of a noise mechanism for a type that is not floating-point"
        );
        assert!(dispatch_number(tag).is_ok());
    }
    let e = opendp_meas__make_base_laplace_vec("i64", 4, float(2.0)).err().unwrap();
    assert_eq!(e.variant, ErrorVariant::TypeParse);
    let e = opendp_meas__make_base_laplace("u32", float(2.0)).err().unwrap();
    assert_eq!(e.variant, ErrorVariant::TypeParse);
    let e = opendp_meas__make_base_gaussian("bool", float(2.0)).err().unwrap();
    assert_eq!(e.message.unwrap(), "no instantiation for a type that is not numeric");
    let e = opendp_meas__make_base_gaussian("not_a_real_type", float(2.0)).err().unwrap();
    assert_eq!(e.message.unwrap(), "the text names no type that can be carried");
}

#[test]
fn bootstrap_names_the_three_constructors_with_their_arguments_in_order() {
    let text = opendp_meas__bootstrap();
    assert_eq!(
        text,
        "{\n\"functions\": [\n    { \"name\": \"make_base_laplace\", \"args\": [ [\"const char *\", \"selector\"], [\"double\", \"sigma\"] ], \"ret\": \"void *\" },\n    { \"name\": \"make_base_laplace_vec\", \"args\": [ [\"const char *\", \"selector\"], [\"size_t\", \"length\"], [\"double\", \"sigma\"] ], \"ret\": \"void *\" },\n    { \"name\": \"make_base_gaussian\", \"args\": [ [\"const char *\", \"selector\"], [\"double\", \"sigma\"] ], \"ret\": \"void *\" }\n]\n}"
    );
    assert_eq!(text.matches("\"name\"").count(), 3);
    assert_eq!(opendp_meas__bootstrap(), text);
}

#[test]
fn a_composed_tag_selects_the_type_over_its_component() -> Fallible<()> {
    assert_eq!(dispatch_type("f64")?, Type::Atom(Atom::F64));
    assert_eq!(dispatch_type("(f64, f64)")?, Type::Pair(Atom::F64));
    assert_eq!(dispatch_type("Vec<i32>")?, Type::Vector(Atom::I32));
    assert_eq!(dispatch_type("(u8, u8)")?, Type::Pair(Atom::U8));
    for atom in [Atom::U8, Atom::U16, Atom::U32, Atom::U64, Atom::I8, Atom::I16, Atom::I32, Atom::I64, Atom::F32, Atom::F64] {
        for t in [Type::Atom(atom), Type::Pair(atom), Type::Vector(atom)] {
            assert_eq!(dispatch_type(&t.to_string())?, t);
        }
    }
    Ok(())
}

#[test]
fn a_composed_tag_with_a_component_outside_the_family_is_a_parse_error() {
    for tag in ["(bool, bool)", "Vec<String>", "bool", "String"] {
        let e = dispatch_type(tag).err().unwrap();
        assert_eq!(e.variant, ErrorVariant::TypeParse, "{:?}", tag);
        assert_eq!(e.message.unwrap(), "no instantiation for a type that is not numeric");
        let e = dispatch_number(tag).err().unwrap();
        assert_eq!(e.variant, ErrorVariant::TypeParse, "{:?}", tag);
    }
    for tag in ["(f64, i32)", "Vec<not_a_real_type>", "not_a_real_type", "(not_a_real_type, f64)", "Vec<(f64, f64)>", ""] {
        let e = dispatch_type(tag).err().unwrap();
        assert_eq!(e.variant, ErrorVariant::TypeParse, "{:?}", tag);
        assert_eq!(e.message.unwrap(), "the text names no type that can be carried");
    }
    let e = dispatch_number("Vec<f64>").err().unwrap();
    assert_eq!(e.message.unwrap(), "no instantiation for a type that is not numeric");
    let e = dispatch_number("not_a_real_type").err().unwrap();
    assert_eq!(e.message.unwrap(), "the text names no type that can be carried");
}

#[test]
fn the_tag_is_resolved_before_the_pointer_is_followed() {
    let e = opendp_trans__make_bounded_sum(None, "not_a_real_type").err().unwrap();
    assert_eq!(e.variant, ErrorVariant::TypeParse);
    let e = opendp_trans__make_sized_bounded_sum(3, None, "bool").err().unwrap();
    assert_eq!(e.variant, ErrorVariant::TypeParse);
    let e = opendp_trans__make_bounded_sum(None, "f64").err().unwrap();
    assert_eq!(e.variant, ErrorVariant::FFI);
    assert_eq!(e.message.unwrap(), "attempted to follow a null pointer");
    let e = opendp_trans__make_sized_bounded_sum(3, None, "u8").err().unwrap();
    assert_eq!(e.variant, ErrorVariant::FFI);
}
