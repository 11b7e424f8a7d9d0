use array_fns::functions::{
    ArrayAppend, ArrayConcat, ArrayDims, ArrayNdims, ArrayPrepend, ArrayToString, Cardinality,
    GenSeries, MakeArray, Range,
};
use array_fns::types::{type_eq, DataType};

fn list(elem: DataType) -> DataType {
    DataType::List(Box::new(elem))
}

fn fixed(elem: DataType, n: u32) -> DataType {
    DataType::FixedSizeList(Box::new(elem), n)
}

#[test]
fn concat_deeper_nesting_wins_regardless_of_order() {
    let d = ArrayConcat::new().descriptor;
    let expected = list(list(DataType::Int64));

    let t = d
        .return_type(&vec![list(DataType::Int64), list(list(DataType::Int64))])
        .expect("two lists of different depth concatenate");
    assert!(type_eq(&t, &expected));

    let t = d
        .return_type(&vec![list(list(DataType::Int64)), list(DataType::Int64)])
        .expect("the same two lists in the other order concatenate");
    assert!(type_eq(&t, &expected));
}

#[test]
fn concat_ignores_null_element_lists() {
    let d = ArrayConcat::new().descriptor;
    let t = d
        .return_type(&vec![list(DataType::Null), list(DataType::Int64)])
        .expect("a null-element list does not constrain the shape");
    assert!(type_eq(&t, &list(DataType::Int64)));
}

#[test]
fn concat_rejects_non_list_arguments() {
    let d = ArrayConcat::new().descriptor;
    let e = d
        .return_type(&vec![DataType::Int64])
        .expect_err("a scalar cannot be concatenated");
    assert_eq!(e.function, "array_concat");
    let e = d
        .return_type(&vec![list(DataType::Int64), DataType::Utf8])
        .expect_err("a scalar after a list still rejects the call");
    assert_eq!(e.function, "array_concat");
}

#[test]
fn concat_rejects_incompatible_types_of_equal_depth() {
    let d = ArrayConcat::new().descriptor;
    let e = d
        .return_type(&vec![list(DataType::Int64), list(DataType::Utf8)])
        .expect_err("equal depth with different element types has no supertype");
    assert_eq!(e.function, "array_concat");
}

#[test]
fn concat_of_equal_lists_keeps_the_type() {
    let d = ArrayConcat::new().descriptor;
    let t = d
        .return_type(&vec![list(DataType::Utf8), list(DataType::Utf8)])
        .expect("equal lists concatenate");
    assert!(type_eq(&t, &list(DataType::Utf8)));
}

#[test]
fn make_array_of_nothing_is_a_null_list() {
    let d = MakeArray::new().descriptor;
    let t = d.return_type(&vec![]).expect("zero arguments are accepted");
    assert!(type_eq(&t, &list(DataType::Null)));
}

#[test]
fn make_array_takes_first_non_null_type() {
    let d = MakeArray::new().descriptor;
    let t = d
        .return_type(&vec![DataType::Null, DataType::Utf8])
        .expect("a null before a text argument is accepted");
    assert!(type_eq(&t, &list(DataType::Utf8)));

    let t = d
        .return_type(&vec![DataType::Null, DataType::Null])
        .expect("all-null arguments are accepted");
    assert!(type_eq(&t, &list(DataType::Null)));
}

#[test]
fn cardinality_accepts_containers_only() {
    let d = Cardinality::new().descriptor;
    let t = d
        .return_type(&vec![fixed(DataType::Int64, 3)])
        .expect("a fixed-size list is a container");
    assert!(type_eq(&t, &DataType::UInt64));

    let e = d
        .return_type(&vec![DataType::Int64])
        .expect_err("a scalar has no cardinality");
    assert_eq!(e.function, "cardinality");
    assert_eq!(e.message, "can only accept a List, LargeList or FixedSizeList argument");
}

#[test]
fn ndims_resolver_accepts_containers_only() {
    let d = ArrayNdims::new().descriptor;
    let t = d
        .return_type(&vec![list(list(DataType::Utf8))])
        .expect("a nested list is a container");
    assert!(type_eq(&t, &DataType::UInt64));

    let e = d
        .return_type(&vec![DataType::Utf8])
        .expect_err("a scalar has no dimensions");
    assert_eq!(e.function, "array_ndims");
    assert_eq!(e.message, "can only accept a List, LargeList or FixedSizeList argument");
}

#[test]
fn dims_resolver_returns_list_of_counts() {
    let d = ArrayDims::new().descriptor;
    let t = d
        .return_type(&vec![fixed(list(DataType::Int64), 2)])
        .expect("a container has a dimension vector");
    assert!(type_eq(&t, &list(DataType::UInt64)));

    let e = d
        .return_type(&vec![DataType::Date32])
        .expect_err("a scalar has no dimension vector");
    assert_eq!(e.function, "array_dims");
}

#[test]
fn range_accepts_integer_and_date_shapes() {
    let d = Range::new().descriptor;
    let t = d.return_type(&vec![DataType::Int64]).expect("one integer");
    assert!(type_eq(&t, &list(DataType::Int64)));

    let t = d
        .return_type(&vec![DataType::Int64, DataType::Int64])
        .expect("two integers");
    assert!(type_eq(&t, &list(DataType::Int64)));

    let t = d
        .return_type(&vec![DataType::Int64, DataType::Int64, DataType::Int64])
        .expect("three integers");
    assert!(type_eq(&t, &list(DataType::Int64)));

    let t = d
        .return_type(&vec![DataType::Date32, DataType::Date32, DataType::Interval])
        .expect("two dates and an interval");
    assert!(type_eq(&t, &list(DataType::Date32)));
}

#[test]
fn range_rejects_text() {
    let d = Range::new().descriptor;
    let e = d
        .return_type(&vec![DataType::Utf8])
        .expect_err("text cannot generate a range");
    assert_eq!(e.function, "range");
    assert_eq!(
        e.message,
        "can only accept one to three Int64 arguments, or Date32, Date32 and Interval"
    );
}

#[test]
fn gen_series_resolves_like_range() {
    let d = GenSeries::new().descriptor;
    let t = d
        .return_type(&vec![DataType::Int64, DataType::Int64])
        .expect("two integers");
    assert!(type_eq(&t, &list(DataType::Int64)));
    assert!(d.return_type(&vec![DataType::Utf8]).is_err());
}

#[test]
fn append_keeps_the_container_type() {
    let d = ArrayAppend::new().descriptor;
    let t = d
        .return_type(&vec![list(DataType::Int64), DataType::Int64])
        .expect("a container and an element");
    assert!(type_eq(&t, &list(DataType::Int64)));

    assert!(d.return_type(&vec![DataType::Int64, DataType::Int64]).is_err());
    assert!(d.return_type(&vec![list(DataType::Int64)]).is_err());
}

#[test]
fn prepend_keeps_the_container_type() {
    let d = ArrayPrepend::new().descriptor;
    let t = d
        .return_type(&vec![DataType::Int64, list(DataType::Int64)])
        .expect("an element and a container");
    assert!(type_eq(&t, &list(DataType::Int64)));

    let e = d
        .return_type(&vec![DataType::Int64, DataType::Int64])
        .expect_err("no container argument");
    assert_eq!(e.function, "array_prepend");
}

#[test]
fn to_string_resolves_to_text() {
    let d = ArrayToString::new().descriptor;
    let t = d
        .return_type(&vec![list(DataType::Int64), DataType::Utf8])
        .expect("a container and a delimiter");
    assert!(type_eq(&t, &DataType::Utf8));

    let e = d
        .return_type(&vec![DataType::Int64])
        .expect_err("a scalar cannot be joined");
    assert_eq!(e.function, "array_to_string");
    let e = d.return_type(&vec![]).expect_err("no argument to join");
    assert_eq!(e.function, "array_to_string");
}

#[test]
fn every_descriptor_lists_its_canonical_name_first() {
    let descriptors = vec![
        ArrayToString::new().descriptor,
        Range::new().descriptor,
        GenSeries::new().descriptor,
        ArrayDims::new().descriptor,
        Cardinality::new().descriptor,
        ArrayNdims::new().descriptor,
        ArrayAppend::new().descriptor,
        ArrayPrepend::new().descriptor,
        ArrayConcat::new().descriptor,
        MakeArray::new().descriptor,
    ];
    for d in &descriptors {
        assert!(!d.aliases.is_empty());
        assert!(d.aliases.iter().any(|a| a == &d.canonical_name));
    }
}
