use core::cmp::Ordering;

use array_fns::signature::{first_accepting, ShapePattern, TypeSignature};
use array_fns::types::{compare_ndims, ndims_u64, type_eq, widen, DataType};

fn list(elem: DataType) -> DataType {
    DataType::List(Box::new(elem))
}

fn fixed(elem: DataType, n: u32) -> DataType {
    DataType::FixedSizeList(Box::new(elem), n)
}

#[test]
fn ndims_of_scalars_is_zero() {
    assert_eq!(ndims_u64(&DataType::Int64), 0);
    assert_eq!(ndims_u64(&DataType::Null), 0);
    assert_eq!(ndims_u64(&DataType::Utf8), 0);
    assert_eq!(ndims_u64(&DataType::Date32), 0);
    assert_eq!(ndims_u64(&DataType::Interval), 0);
    assert_eq!(ndims_u64(&DataType::UInt64), 0);
}

#[test]
fn ndims_adds_one_per_container_level() {
    let t0 = DataType::Int64;
    let t1 = list(DataType::Int64);
    let t2 = list(list(DataType::Int64));
    assert_eq!(ndims_u64(&t1), 1 + ndims_u64(&t0));
    assert_eq!(ndims_u64(&t2), 1 + ndims_u64(&t1));
    assert_eq!(ndims_u64(&DataType::LargeList(Box::new(t1.clone_type()))), 2);
    assert_eq!(ndims_u64(&fixed(DataType::Int64, 3)), 1);
    assert_eq!(ndims_u64(&fixed(list(DataType::Utf8), 2)), 2);
}

#[test]
fn compare_ndims_orders_by_depth() {
    assert_eq!(compare_ndims(&DataType::Int64, &DataType::Utf8), Ordering::Equal);
    assert_eq!(compare_ndims(&DataType::Int64, &list(DataType::Int64)), Ordering::Less);
    assert_eq!(compare_ndims(&list(DataType::Int64), &DataType::Utf8), Ordering::Greater);
    assert_eq!(
        compare_ndims(&list(DataType::Int64), &fixed(DataType::Utf8, 7)),
        Ordering::Equal
    );
    assert_eq!(
        compare_ndims(&list(list(DataType::Int64)), &list(DataType::Utf8)),
        Ordering::Greater
    );
}

#[test]
fn type_eq_is_structural() {
    assert!(type_eq(&list(DataType::Int64), &list(DataType::Int64)));
    assert!(!type_eq(&list(DataType::Int64), &list(DataType::Utf8)));
    assert!(!type_eq(&list(DataType::Int64), &DataType::Int64));
    assert!(type_eq(&fixed(DataType::Int64, 3), &fixed(DataType::Int64, 3)));
    assert!(!type_eq(&fixed(DataType::Int64, 3), &fixed(DataType::Int64, 4)));
    assert!(!type_eq(
        &DataType::LargeList(Box::new(DataType::Int64)),
        &list(DataType::Int64)
    ));
}

#[test]
fn widen_accepts_equal_types_only() {
    let a = list(DataType::Int64);
    let b = list(DataType::Int64);
    let w = widen(&a, &b).expect("equal types have a common supertype");
    assert!(type_eq(&w, &a));
    assert!(widen(&list(DataType::Int64), &list(DataType::Utf8)).is_none());
    assert!(widen(&DataType::Int64, &DataType::UInt64).is_none());
}

#[test]
fn exact_shape_matches_positionally() {
    let shape = ShapePattern::Exact(vec![DataType::Int64, DataType::Utf8]);
    assert!(shape.matches_types(&vec![DataType::Int64, DataType::Utf8]));
    assert!(!shape.matches_types(&vec![DataType::Utf8, DataType::Int64]));
    assert!(!shape.matches_types(&vec![DataType::Int64]));
    assert!(!shape.matches_types(&vec![]));
}

#[test]
fn variadic_any_accepts_everything() {
    let shape = ShapePattern::VariadicAny;
    assert!(shape.matches_types(&vec![]));
    assert!(shape.matches_types(&vec![DataType::Int64, DataType::Utf8, DataType::Null]));
}

#[test]
fn variadic_equal_requires_one_shared_type() {
    let shape = ShapePattern::VariadicEqual;
    assert!(shape.matches_types(&vec![]));
    assert!(shape.matches_types(&vec![DataType::Int64]));
    assert!(shape.matches_types(&vec![DataType::Int64, DataType::Int64]));
    assert!(!shape.matches_types(&vec![DataType::Int64, DataType::Utf8]));
}

#[test]
fn uniform_array_takes_one_container() {
    let shape = ShapePattern::UniformArray;
    assert!(shape.matches_types(&vec![list(DataType::Int64)]));
    assert!(shape.matches_types(&vec![fixed(DataType::Int64, 3)]));
    assert!(!shape.matches_types(&vec![DataType::Int64]));
    assert!(!shape.matches_types(&vec![list(DataType::Int64), list(DataType::Int64)]));
}

#[test]
fn array_and_element_positions() {
    assert!(ShapePattern::ArrayAndElement
        .matches_types(&vec![list(DataType::Int64), DataType::Int64]));
    assert!(!ShapePattern::ArrayAndElement
        .matches_types(&vec![DataType::Int64, list(DataType::Int64)]));
    assert!(ShapePattern::ElementAndArray
        .matches_types(&vec![DataType::Int64, list(DataType::Int64)]));
    assert!(!ShapePattern::ElementAndArray
        .matches_types(&vec![list(DataType::Int64), DataType::Int64]));
}

#[test]
fn one_of_first_matching_alternative_wins() {
    let alts = vec![ShapePattern::VariadicAny, ShapePattern::UniformArray];
    let args = vec![list(DataType::Int64)];
    assert_eq!(first_accepting(&alts, &args), Some(0));

    let alts = vec![ShapePattern::UniformArray, ShapePattern::VariadicAny];
    assert_eq!(first_accepting(&alts, &args), Some(0));
    let scalar_args = vec![DataType::Int64];
    assert_eq!(first_accepting(&alts, &scalar_args), Some(1));

    let alts = vec![
        ShapePattern::Exact(vec![DataType::Int64]),
        ShapePattern::Exact(vec![DataType::Utf8]),
    ];
    assert_eq!(first_accepting(&alts, &vec![DataType::Utf8]), Some(1));
    assert_eq!(first_accepting(&alts, &vec![DataType::Date32]), None);

    let sig = TypeSignature::OneOf(alts);
    assert!(sig.matches_types(&vec![DataType::Utf8]));
    assert!(!sig.matches_types(&vec![DataType::Date32]));
}
