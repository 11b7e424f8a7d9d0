//! The function family: one constructor per function, each building the
//! immutable descriptor that binds its names, signature, return-type rule
//! and dispatch rule.

use vstd::prelude::*;
use vstd::string::StringExecFns;
use crate::descriptor::FunctionDescriptor;
use crate::dispatch::{route_spec, DispatchRule, KernelId};
use crate::resolve::{range_shape, ReturnRule};
use crate::signature::{ShapePattern, TypeSignature, Volatility};
use crate::types::DataType;

verus! {

/// The facts every constructor establishes about its descriptor.
pub open spec fn built(
    d: FunctionDescriptor,
    name: Seq<char>,
    rule: ReturnRule,
    dispatch: DispatchRule,
) -> bool {
    &&& d.wf()
    &&& d.canonical_name@ == name
    &&& d.volatility == Volatility::Immutable
    &&& d.rule == rule
    &&& d.dispatch == dispatch
}

/// A fixed dispatch rule routes every call, so coverage is immediate.
proof fn lemma_fixed_covers(d: FunctionDescriptor)
    requires
        d.dispatch is Fixed,
    ensures
        d.dispatch_covers(),
{
    assert forall|arg_types: Seq<DataType>| #[trigger]
        d.signature.accepts(arg_types) implies route_spec(d.dispatch, arg_types) is Some by {
        assert(route_spec(d.dispatch, arg_types) matches Some(_));
    }
}

/// The signature shared by the range-style generators: one, two or three
/// 64-bit integers, or two dates and an interval, as an alternation of exact
/// shapes in that order.
fn range_signature() -> (sig: TypeSignature)
    ensures
        forall|ts: Seq<DataType>| #[trigger] sig.accepts(ts) == range_shape(ts),
        sig is OneOf,
{
    let mut one_int: Vec<DataType> = Vec::new();
    one_int.push(DataType::Int64);
    let ghost g1 = one_int@;
    let mut two_ints: Vec<DataType> = Vec::new();
    two_ints.push(DataType::Int64);
    two_ints.push(DataType::Int64);
    let ghost g2 = two_ints@;
    let mut three_ints: Vec<DataType> = Vec::new();
    three_ints.push(DataType::Int64);
    three_ints.push(DataType::Int64);
    three_ints.push(DataType::Int64);
    let ghost g3 = three_ints@;
    let mut dates: Vec<DataType> = Vec::new();
    dates.push(DataType::Date32);
    dates.push(DataType::Date32);
    dates.push(DataType::Interval);
    let ghost g4 = dates@;
    let mut alts: Vec<ShapePattern> = Vec::new();
    alts.push(ShapePattern::Exact(one_int));
    alts.push(ShapePattern::Exact(two_ints));
    alts.push(ShapePattern::Exact(three_ints));
    alts.push(ShapePattern::Exact(dates));
    let sig = TypeSignature::OneOf(alts);
    proof {
        assert(sig->OneOf_0 == alts);
        assert(alts@[0]->Exact_0@ == g1);
        assert(alts@[1]->Exact_0@ == g2);
        assert(alts@[2]->Exact_0@ == g3);
        assert(alts@[3]->Exact_0@ == g4);
        assert(g1.len() == 1 && g1[0] == DataType::Int64);
        assert(g2.len() == 2 && g2[0] == DataType::Int64 && g2[1] == DataType::Int64);
        assert(g3.len() == 3 && g3[0] == DataType::Int64 && g3[1] == DataType::Int64 && g3[2]
            == DataType::Int64);
        assert(g4.len() == 3 && g4[0] == DataType::Date32 && g4[1] == DataType::Date32 && g4[2]
            == DataType::Interval);
        assert forall|ts: Seq<DataType>| #[trigger] sig.accepts(ts) implies range_shape(ts) by {
            assert forall|i: int|
                0 <= i < alts@.len() && #[trigger] alts@[i].accepts(ts) implies range_shape(
                ts,
            ) by {
                if i == 0 {
                    assert(ts[0] == g1[0]);
                } else if i == 1 {
                    assert(ts[0] == g2[0] && ts[1] == g2[1]);
                } else if i == 2 {
                    assert(ts[0] == g3[0] && ts[1] == g3[1] && ts[2] == g3[2]);
                } else {
                    assert(ts[0] == g4[0] && ts[1] == g4[1] && ts[2] == g4[2]);
                }
            }
        }
        assert forall|ts: Seq<DataType>| range_shape(ts) implies #[trigger] sig.accepts(ts) by {
            if ts.len() == 1 && ts[0] == DataType::Int64 {
                assert(forall|k: int| 0 <= k < ts.len() ==> #[trigger] ts[k] == g1[k]);
                assert(alts@[0].accepts(ts));
            } else if ts.len() == 2 {
                assert(forall|k: int| 0 <= k < ts.len() ==> #[trigger] ts[k] == g2[k]);
                assert(alts@[1].accepts(ts));
            } else if ts[0] == DataType::Int64 {
                assert(forall|k: int| 0 <= k < ts.len() ==> #[trigger] ts[k] == g3[k]);
                assert(alts@[2].accepts(ts));
            } else {
                assert(forall|k: int| 0 <= k < ts.len() ==> #[trigger] ts[k] == g4[k]);
                assert(alts@[3].accepts(ts));
            }
        }
    }
    sig
}

/// Range-style dispatch covers its signature: every accepted shape starts
/// with an integer or a date, each of which has a kernel.
proof fn lemma_range_covers(d: FunctionDescriptor)
    requires
        d.dispatch is RangeByKind,
        forall|ts: Seq<DataType>| #[trigger] d.signature.accepts(ts) == range_shape(ts),
    ensures
        d.dispatch_covers(),
{
    assert forall|arg_types: Seq<DataType>| #[trigger]
        d.signature.accepts(arg_types) implies route_spec(d.dispatch, arg_types) is Some by {
        assert(range_shape(arg_types));
        assert(arg_types[0] == DataType::Int64 || arg_types[0] == DataType::Date32);
    }
}

/// Converts each element of a container to its text representation and
/// joins them with a delimiter.
#[derive(Debug)]
pub struct ArrayToString {
    pub descriptor: FunctionDescriptor,
}

impl ArrayToString {
    pub fn new() -> (s: Self)
        ensures
            built(
                s.descriptor,
                "array_to_string"@,
                ReturnRule::ElementText,
                DispatchRule::Fixed(KernelId::TextJoin),
            ),
            s.descriptor.signature == TypeSignature::Shape(ShapePattern::VariadicAny),
            s.descriptor.aliases@.len() == 4,
            s.descriptor.aliases@[0]@ == "array_to_string"@,
            s.descriptor.aliases@[1]@ == "list_to_string"@,
            s.descriptor.aliases@[2]@ == "array_join"@,
            s.descriptor.aliases@[3]@ == "list_join"@,
    {
        let mut aliases: Vec<String> = Vec::new();
        aliases.push(String::from_str("array_to_string"));
        aliases.push(String::from_str("list_to_string"));
        aliases.push(String::from_str("array_join"));
        aliases.push(String::from_str("list_join"));
        let descriptor = FunctionDescriptor {
            canonical_name: String::from_str("array_to_string"),
            aliases,
            signature: TypeSignature::Shape(ShapePattern::VariadicAny),
            volatility: Volatility::Immutable,
            rule: ReturnRule::ElementText,
            dispatch: DispatchRule::Fixed(KernelId::TextJoin),
        };
        proof {
            assert(descriptor.aliases@[0]@ == descriptor.canonical_name@);
            lemma_fixed_covers(descriptor);
        }
        ArrayToString { descriptor }
    }
}

/// Generates the list of values from a start to a stop with a step, the
/// upper bound excluded.
#[derive(Debug)]
pub struct Range {
    pub descriptor: FunctionDescriptor,
}

impl Range {
    pub fn new() -> (s: Self)
        ensures
            built(
                s.descriptor,
                "range"@,
                ReturnRule::RangeList,
                DispatchRule::RangeByKind { inclusive: false },
            ),
            forall|ts: Seq<DataType>| #[trigger] s.descriptor.signature.accepts(ts)
                == range_shape(ts),
            s.descriptor.aliases@.len() == 1,
            s.descriptor.aliases@[0]@ == "range"@,
    {
        let mut aliases: Vec<String> = Vec::new();
        aliases.push(String::from_str("range"));
        let descriptor = FunctionDescriptor {
            canonical_name: String::from_str("range"),
            aliases,
            signature: range_signature(),
            volatility: Volatility::Immutable,
            rule: ReturnRule::RangeList,
            dispatch: DispatchRule::RangeByKind { inclusive: false },
        };
        proof {
            assert(descriptor.aliases@[0]@ == descriptor.canonical_name@);
            lemma_range_covers(descriptor);
        }
        Range { descriptor }
    }
}

/// Generates the list of values from a start to a stop with a step, the
/// upper bound included.
#[derive(Debug)]
pub struct GenSeries {
    pub descriptor: FunctionDescriptor,
}

impl GenSeries {
    pub fn new() -> (s: Self)
        ensures
            built(
                s.descriptor,
                "generate_series"@,
                ReturnRule::RangeList,
                DispatchRule::RangeByKind { inclusive: true },
            ),
            forall|ts: Seq<DataType>| #[trigger] s.descriptor.signature.accepts(ts)
                == range_shape(ts),
            s.descriptor.aliases@.len() == 1,
            s.descriptor.aliases@[0]@ == "generate_series"@,
    {
        let mut aliases: Vec<String> = Vec::new();
        aliases.push(String::from_str("generate_series"));
        let descriptor = FunctionDescriptor {
            canonical_name: String::from_str("generate_series"),
            aliases,
            signature: range_signature(),
            volatility: Volatility::Immutable,
            rule: ReturnRule::RangeList,
            dispatch: DispatchRule::RangeByKind { inclusive: true },
        };
        proof {
            assert(descriptor.aliases@[0]@ == descriptor.canonical_name@);
            lemma_range_covers(descriptor);
        }
        GenSeries { descriptor }
    }
}

/// Returns the list of a container's per-dimension sizes.
#[derive(Debug)]
pub struct ArrayDims {
    pub descriptor: FunctionDescriptor,
}

impl ArrayDims {
    pub fn new() -> (s: Self)
        ensures
            built(
                s.descriptor,
                "array_dims"@,
                ReturnRule::DimensionList,
                DispatchRule::Fixed(KernelId::Dims),
            ),
            s.descriptor.signature == TypeSignature::Shape(ShapePattern::UniformArray),
            s.descriptor.aliases@.len() == 2,
            s.descriptor.aliases@[0]@ == "array_dims"@,
            s.descriptor.aliases@[1]@ == "list_dims"@,
    {
        let mut aliases: Vec<String> = Vec::new();
        aliases.push(String::from_str("array_dims"));
        aliases.push(String::from_str("list_dims"));
        let descriptor = FunctionDescriptor {
            canonical_name: String::from_str("array_dims"),
            aliases,
            signature: TypeSignature::Shape(ShapePattern::UniformArray),
            volatility: Volatility::Immutable,
            rule: ReturnRule::DimensionList,
            dispatch: DispatchRule::Fixed(KernelId::Dims),
        };
        proof {
            assert(descriptor.aliases@[0]@ == descriptor.canonical_name@);
            lemma_fixed_covers(descriptor);
        }
        ArrayDims { descriptor }
    }
}

/// Returns the total number of elements in a container.
#[derive(Debug)]
pub struct Cardinality {
    pub descriptor: FunctionDescriptor,
}

impl Cardinality {
    pub fn new() -> (s: Self)
        ensures
            built(
                s.descriptor,
                "cardinality"@,
                ReturnRule::UnsignedCount,
                DispatchRule::Fixed(KernelId::Cardinality),
            ),
            s.descriptor.signature == TypeSignature::Shape(ShapePattern::UniformArray),
            s.descriptor.aliases@.len() == 1,
            s.descriptor.aliases@[0]@ == "cardinality"@,
    {
        let mut aliases: Vec<String> = Vec::new();
        aliases.push(String::from_str("cardinality"));
        let descriptor = FunctionDescriptor {
            canonical_name: String::from_str("cardinality"),
            aliases,
            signature: TypeSignature::Shape(ShapePattern::UniformArray),
            volatility: Volatility::Immutable,
            rule: ReturnRule::UnsignedCount,
            dispatch: DispatchRule::Fixed(KernelId::Cardinality),
        };
        proof {
            assert(descriptor.aliases@[0]@ == descriptor.canonical_name@);
            lemma_fixed_covers(descriptor);
        }
        Cardinality { descriptor }
    }
}

/// Returns a container's nesting depth.
#[derive(Debug)]
pub struct ArrayNdims {
    pub descriptor: FunctionDescriptor,
}

impl ArrayNdims {
    pub fn new() -> (s: Self)
        ensures
            built(
                s.descriptor,
                "array_ndims"@,
                ReturnRule::UnsignedCount,
                DispatchRule::Fixed(KernelId::Ndims),
            ),
            s.descriptor.signature == TypeSignature::Shape(ShapePattern::UniformArray),
            s.descriptor.aliases@.len() == 2,
            s.descriptor.aliases@[0]@ == "array_ndims"@,
            s.descriptor.aliases@[1]@ == "list_ndims"@,
    {
        let mut aliases: Vec<String> = Vec::new();
        aliases.push(String::from_str("array_ndims"));
        aliases.push(String::from_str("list_ndims"));
        let descriptor = FunctionDescriptor {
            canonical_name: String::from_str("array_ndims"),
            aliases,
            signature: TypeSignature::Shape(ShapePattern::UniformArray),
            volatility: Volatility::Immutable,
            rule: ReturnRule::UnsignedCount,
            dispatch: DispatchRule::Fixed(KernelId::Ndims),
        };
        proof {
            assert(descriptor.aliases@[0]@ == descriptor.canonical_name@);
            lemma_fixed_covers(descriptor);
        }
        ArrayNdims { descriptor }
    }
}

/// Appends an element to the end of a container.
#[derive(Debug)]
pub struct ArrayAppend {
    pub descriptor: FunctionDescriptor,
}

impl ArrayAppend {
    pub fn new() -> (s: Self)
        ensures
            built(
                s.descriptor,
                "array_append"@,
                ReturnRule::FirstArgument,
                DispatchRule::Fixed(KernelId::Append),
            ),
            s.descriptor.signature == TypeSignature::Shape(ShapePattern::ArrayAndElement),
            s.descriptor.aliases@.len() == 4,
            s.descriptor.aliases@[0]@ == "array_append"@,
            s.descriptor.aliases@[1]@ == "list_append"@,
            s.descriptor.aliases@[2]@ == "array_push_back"@,
            s.descriptor.aliases@[3]@ == "list_push_back"@,
    {
        let mut aliases: Vec<String> = Vec::new();
        aliases.push(String::from_str("array_append"));
        aliases.push(String::from_str("list_append"));
        aliases.push(String::from_str("array_push_back"));
        aliases.push(String::from_str("list_push_back"));
        let descriptor = FunctionDescriptor {
            canonical_name: String::from_str("array_append"),
            aliases,
            signature: TypeSignature::Shape(ShapePattern::ArrayAndElement),
            volatility: Volatility::Immutable,
            rule: ReturnRule::FirstArgument,
            dispatch: DispatchRule::Fixed(KernelId::Append),
        };
        proof {
            assert(descriptor.aliases@[0]@ == descriptor.canonical_name@);
            lemma_fixed_covers(descriptor);
        }
        ArrayAppend { descriptor }
    }
}

/// Prepends an element to the beginning of a container.
#[derive(Debug)]
pub struct ArrayPrepend {
    pub descriptor: FunctionDescriptor,
}

impl ArrayPrepend {
    pub fn new() -> (s: Self)
        ensures
            built(
                s.descriptor,
                "array_prepend"@,
                ReturnRule::SecondArgument,
                DispatchRule::Fixed(KernelId::Prepend),
            ),
            s.descriptor.signature == TypeSignature::Shape(ShapePattern::ElementAndArray),
            s.descriptor.aliases@.len() == 4,
            s.descriptor.aliases@[0]@ == "array_prepend"@,
            s.descriptor.aliases@[1]@ == "list_prepend"@,
            s.descriptor.aliases@[2]@ == "array_push_front"@,
            s.descriptor.aliases@[3]@ == "list_push_front"@,
    {
        let mut aliases: Vec<String> = Vec::new();
        aliases.push(String::from_str("array_prepend"));
        aliases.push(String::from_str("list_prepend"));
        aliases.push(String::from_str("array_push_front"));
        aliases.push(String::from_str("list_push_front"));
        let descriptor = FunctionDescriptor {
            canonical_name: String::from_str("array_prepend"),
            aliases,
            signature: TypeSignature::Shape(ShapePattern::ElementAndArray),
            volatility: Volatility::Immutable,
            rule: ReturnRule::SecondArgument,
            dispatch: DispatchRule::Fixed(KernelId::Prepend),
        };
        proof {
            assert(descriptor.aliases@[0]@ == descriptor.canonical_name@);
            lemma_fixed_covers(descriptor);
        }
        ArrayPrepend { descriptor }
    }
}

/// Concatenates containers, widening across arguments and tracking nesting
/// depth.
#[derive(Debug)]
pub struct ArrayConcat {
    pub descriptor: FunctionDescriptor,
}

impl ArrayConcat {
    pub fn new() -> (s: Self)
        ensures
            built(
                s.descriptor,
                "array_concat"@,
                ReturnRule::ConcatWiden,
                DispatchRule::Fixed(KernelId::Concat),
            ),
            s.descriptor.signature == TypeSignature::Shape(ShapePattern::VariadicAny),
            s.descriptor.aliases@.len() == 4,
            s.descriptor.aliases@[0]@ == "array_concat"@,
            s.descriptor.aliases@[1]@ == "array_cat"@,
            s.descriptor.aliases@[2]@ == "list_concat"@,
            s.descriptor.aliases@[3]@ == "list_cat"@,
    {
        let mut aliases: Vec<String> = Vec::new();
        aliases.push(String::from_str("array_concat"));
        aliases.push(String::from_str("array_cat"));
        aliases.push(String::from_str("list_concat"));
        aliases.push(String::from_str("list_cat"));
        let descriptor = FunctionDescriptor {
            canonical_name: String::from_str("array_concat"),
            aliases,
            signature: TypeSignature::Shape(ShapePattern::VariadicAny),
            volatility: Volatility::Immutable,
            rule: ReturnRule::ConcatWiden,
            dispatch: DispatchRule::Fixed(KernelId::Concat),
        };
        proof {
            assert(descriptor.aliases@[0]@ == descriptor.canonical_name@);
            lemma_fixed_covers(descriptor);
        }
        ArrayConcat { descriptor }
    }
}

/// Builds a container from its argument values.
#[derive(Debug)]
pub struct MakeArray {
    pub descriptor: FunctionDescriptor,
}

impl MakeArray {
    pub fn new() -> (s: Self)
        ensures
            built(
                s.descriptor,
                "make_array"@,
                ReturnRule::WrapInList,
                DispatchRule::Fixed(KernelId::MakeArray),
            ),
            s.descriptor.signature == TypeSignature::Shape(ShapePattern::VariadicEqual),
            s.descriptor.aliases@.len() == 2,
            s.descriptor.aliases@[0]@ == "make_array"@,
            s.descriptor.aliases@[1]@ == "make_list"@,
    {
        let mut aliases: Vec<String> = Vec::new();
        aliases.push(String::from_str("make_array"));
        aliases.push(String::from_str("make_list"));
        let descriptor = FunctionDescriptor {
            canonical_name: String::from_str("make_array"),
            aliases,
            signature: TypeSignature::Shape(ShapePattern::VariadicEqual),
            volatility: Volatility::Immutable,
            rule: ReturnRule::WrapInList,
            dispatch: DispatchRule::Fixed(KernelId::MakeArray),
        };
        proof {
            assert(descriptor.aliases@[0]@ == descriptor.canonical_name@);
            lemma_fixed_covers(descriptor);
        }
        MakeArray { descriptor }
    }
}

} // verus!
