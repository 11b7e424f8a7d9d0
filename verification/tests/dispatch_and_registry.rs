use array_fns::dispatch::{ArrayHandle, ColumnarValue, KernelId};
use array_fns::functions::{ArrayAppend, GenSeries, MakeArray, Range};
use array_fns::registry::Registry;
use array_fns::types::{type_eq, DataType};

fn list(elem: DataType) -> DataType {
    DataType::List(Box::new(elem))
}

fn array(dtype: DataType, len: usize) -> ColumnarValue {
    ColumnarValue::Array(ArrayHandle { dtype, len })
}

#[test]
fn range_routes_integers_to_the_integer_kernel() {
    let d = Range::new().descriptor;
    let call = d
        .invoke(&vec![array(DataType::Int64, 3), array(DataType::Int64, 3)])
        .expect("integer batches have a range kernel");
    assert_eq!(call.kernel, KernelId::IntRange);
    assert_eq!(call.args.len(), 2);
    assert_eq!(call.args[0].len, 3);
}

#[test]
fn range_routes_dates_to_the_date_kernel() {
    let d = Range::new().descriptor;
    let call = d
        .invoke(&vec![
            array(DataType::Date32, 2),
            array(DataType::Date32, 2),
            array(DataType::Interval, 2),
        ])
        .expect("date batches have a range kernel");
    assert_eq!(call.kernel, KernelId::DateRange);
}

#[test]
fn gen_series_routes_to_the_inclusive_kernels() {
    let d = GenSeries::new().descriptor;
    let call = d
        .invoke(&vec![array(DataType::Int64, 1)])
        .expect("integer batches have a series kernel");
    assert_eq!(call.kernel, KernelId::IntSeries);
    let call = d
        .invoke(&vec![
            array(DataType::Date32, 1),
            array(DataType::Date32, 1),
            array(DataType::Interval, 1),
        ])
        .expect("date batches have a series kernel");
    assert_eq!(call.kernel, KernelId::DateSeries);
}

#[test]
fn unrouteable_runtime_kind_is_an_execution_failure_not_a_planning_one() {
    let d = Range::new().descriptor;

    // At planning time the same argument kind is rejected with a planning
    // failure by the return-type resolver.
    let planning: array_fns::failure::PlanningError = d
        .return_type(&vec![DataType::UInt64])
        .expect_err("an unsigned kind is outside the accepted shapes");
    assert_eq!(planning.function, "range");

    // A batch of that kind reaching the dispatcher anyway fails at execution
    // time, with the other failure type.
    let execution: array_fns::failure::ExecutionError = d
        .invoke(&vec![array(DataType::UInt64, 4)])
        .expect_err("no range kernel exists for an unsigned kind");
    assert_eq!(execution.function, "range");
    assert_eq!(execution.message, "no kernel for the runtime argument kind");
}

#[test]
fn scalars_are_broadcast_to_the_batch_length() {
    let d = MakeArray::new().descriptor;
    let call = d
        .invoke(&vec![
            ColumnarValue::Scalar(DataType::Int64),
            array(DataType::Int64, 4),
            ColumnarValue::Scalar(DataType::Int64),
        ])
        .expect("scalars broadcast to the array length");
    assert_eq!(call.kernel, KernelId::MakeArray);
    assert_eq!(call.args.len(), 3);
    for a in &call.args {
        assert_eq!(a.len, 4);
        assert!(type_eq(&a.dtype, &DataType::Int64));
    }
}

#[test]
fn all_scalar_calls_form_a_single_row_batch() {
    let d = MakeArray::new().descriptor;
    let call = d
        .invoke(&vec![
            ColumnarValue::Scalar(DataType::Utf8),
            ColumnarValue::Scalar(DataType::Utf8),
        ])
        .expect("an all-scalar call broadcasts to one row");
    assert_eq!(call.args[0].len, 1);
    assert_eq!(call.args[1].len, 1);
}

#[test]
fn mixed_array_lengths_fail_execution() {
    let d = MakeArray::new().descriptor;
    let e = d
        .invoke(&vec![array(DataType::Int64, 2), array(DataType::Int64, 3)])
        .expect_err("arrays of different lengths form no batch");
    assert_eq!(e.function, "make_array");
    assert_eq!(e.message, "arguments have mixed batch lengths");
}

#[test]
fn append_routes_to_its_kernel_with_types_kept() {
    let d = ArrayAppend::new().descriptor;
    let call = d
        .invoke(&vec![
            array(list(DataType::Int64), 5),
            ColumnarValue::Scalar(DataType::Int64),
        ])
        .expect("a fixed dispatch rule always routes");
    assert_eq!(call.kernel, KernelId::Append);
    assert!(type_eq(&call.args[0].dtype, &list(DataType::Int64)));
    assert!(type_eq(&call.args[1].dtype, &DataType::Int64));
    assert_eq!(call.args[1].len, 5);
}

#[test]
fn standard_registry_builds_without_collisions() {
    let registry = Registry::standard().expect("the standard names are disjoint");
    assert_eq!(registry.descriptors.len(), 10);
}

#[test]
fn registry_resolves_canonical_names() {
    let registry = Registry::standard().expect("the standard names are disjoint");
    for name in [
        "array_to_string",
        "range",
        "generate_series",
        "array_dims",
        "cardinality",
        "array_ndims",
        "array_append",
        "array_prepend",
        "array_concat",
        "make_array",
    ] {
        let d = registry
            .resolve(&name.to_string())
            .expect("every canonical name resolves");
        assert_eq!(d.canonical_name, name);
    }
}

#[test]
fn registry_resolves_aliases_to_their_function() {
    let registry = Registry::standard().expect("the standard names are disjoint");
    let d = registry
        .resolve(&"list_push_front".to_string())
        .expect("an alias resolves");
    assert_eq!(d.canonical_name, "array_prepend");
    let d = registry
        .resolve(&"array_join".to_string())
        .expect("an alias resolves");
    assert_eq!(d.canonical_name, "array_to_string");
    let d = registry
        .resolve(&"make_list".to_string())
        .expect("an alias resolves");
    assert_eq!(d.canonical_name, "make_array");
}

#[test]
fn registry_rejects_unknown_names() {
    let registry = Registry::standard().expect("the standard names are disjoint");
    assert!(registry.resolve(&"array_reverse".to_string()).is_none());
    assert!(registry.resolve(&"".to_string()).is_none());
}

#[test]
fn registry_rejects_colliding_descriptors() {
    let a = ArrayAppend::new().descriptor;
    let b = ArrayAppend::new().descriptor;
    let e = Registry::build(vec![a, b]).expect_err("one name claimed twice");
    assert_eq!(e.message, "two descriptors claim one name");
}

#[test]
fn resolved_descriptor_plans_and_dispatches_consistently() {
    let registry = Registry::standard().expect("the standard names are disjoint");
    let d = registry
        .resolve(&"list_append".to_string())
        .expect("an alias resolves");
    let planned = d
        .return_type(&vec![list(DataType::Utf8), DataType::Utf8])
        .expect("a container and an element");
    assert!(type_eq(&planned, &list(DataType::Utf8)));
    let call = d
        .invoke(&vec![
            array(list(DataType::Utf8), 2),
            array(DataType::Utf8, 2),
        ])
        .expect("the planned call routes");
    assert_eq!(call.kernel, KernelId::Append);
}
