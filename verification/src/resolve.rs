//! Return-type resolvers: pure rules from validated argument types to the
//! function's result type, or to a planning failure when the combination
//! lies outside the rule's documented domain.

use vstd::prelude::*;
use crate::types::{DataType, widen_spec};

verus! {

/// The return-type rule a function descriptor carries.
#[derive(Debug, PartialEq, Eq, Structural, Clone, Copy)]
pub enum ReturnRule {
    /// A container argument turns into its text representation.
    ElementText,
    /// A range-style generator: a list of the first argument's type.
    RangeList,
    /// A container argument's dimension vector: a list of unsigned counts.
    DimensionList,
    /// A container argument reduces to one unsigned scalar count.
    UnsignedCount,
    /// Pass-through: the first argument's (container) type, unchanged.
    FirstArgument,
    /// Pass-through: the second argument's (container) type, unchanged.
    SecondArgument,
    /// Concatenation: dimension-tracked widening across many containers.
    ConcatWiden,
    /// Wrap-in-container: a list of the first non-null argument's type.
    WrapInList,
}

/// Result type of the text-conversion rule: the first argument must be a
/// container; the result is always UTF-8 text.
pub open spec fn element_text_result(args: Seq<DataType>) -> Option<DataType> {
    if args.len() >= 1 && args[0].is_container() {
        Some(DataType::Utf8)
    } else {
        None
    }
}

/// The argument shapes a range-style generator accepts: one, two or three
/// 64-bit integers, or two dates and an interval.
pub open spec fn range_shape(args: Seq<DataType>) -> bool {
    ||| (args.len() == 1 && args[0] == DataType::Int64)
    ||| (args.len() == 2 && args[0] == DataType::Int64 && args[1] == DataType::Int64)
    ||| (args.len() == 3 && args[0] == DataType::Int64 && args[1] == DataType::Int64 && args[2]
        == DataType::Int64)
    ||| (args.len() == 3 && args[0] == DataType::Date32 && args[1] == DataType::Date32 && args[2]
        == DataType::Interval)
}

/// Result type of a range-style generator: a list of the first argument's
/// type, on the accepted shapes only.
pub open spec fn range_list_result(args: Seq<DataType>) -> Option<DataType> {
    if range_shape(args) {
        Some(DataType::List(Box::new(args[0])))
    } else {
        None
    }
}

/// Result type of the dimension-vector rule: the single argument must be a
/// container; the result lists one unsigned count per dimension.
pub open spec fn dimension_list_result(args: Seq<DataType>) -> Option<DataType> {
    if args.len() == 1 && args[0].is_container() {
        Some(DataType::List(Box::new(DataType::UInt64)))
    } else {
        None
    }
}

/// Result type of the cardinality and nesting-depth rules: the single
/// argument must be a container; the result is a fixed unsigned scalar kind
/// regardless of the input's shape.
pub open spec fn unsigned_count_result(args: Seq<DataType>) -> Option<DataType> {
    if args.len() == 1 && args[0].is_container() {
        Some(DataType::UInt64)
    } else {
        None
    }
}

/// Result type of appending an element to a container: the container
/// argument's type, unchanged.
pub open spec fn first_argument_result(args: Seq<DataType>) -> Option<DataType> {
    if args.len() == 2 && args[0].is_container() {
        Some(args[0])
    } else {
        None
    }
}

/// Result type of prepending an element to a container: the container
/// argument's type, unchanged.
pub open spec fn second_argument_result(args: Seq<DataType>) -> Option<DataType> {
    if args.len() == 2 && args[1].is_container() {
        Some(args[1])
    } else {
        None
    }
}

/// One pass of the concatenation rule from position `k`, carrying the
/// dominant type so far. A list whose element type is null has unknown shape
/// and is skipped; a deeper-nested argument displaces the type so far; at
/// equal depth the two are widened; a shallower argument is ignored, since
/// the deeper type already dominates. Anything that is not a list rejects
/// the whole call.
pub open spec fn concat_widen_from(args: Seq<DataType>, k: int, cur: DataType) -> Option<
    DataType,
>
    decreases args.len() - k,
{
    if k < 0 || k >= args.len() {
        Some(cur)
    } else {
        match args[k] {
            DataType::List(elem) => {
                if *elem == DataType::Null {
                    concat_widen_from(args, k + 1, cur)
                } else if cur.ndims() > args[k].ndims() {
                    concat_widen_from(args, k + 1, cur)
                } else if cur.ndims() == args[k].ndims() {
                    match widen_spec(cur, args[k]) {
                        Some(w) => concat_widen_from(args, k + 1, w),
                        None => None,
                    }
                } else {
                    concat_widen_from(args, k + 1, args[k])
                }
            },
            _ => None,
        }
    }
}

/// Result type of concatenating many containers: the dimension-tracked widen
/// across all arguments, starting from the null type at depth zero.
pub open spec fn concat_widen_result(args: Seq<DataType>) -> Option<DataType> {
    concat_widen_from(args, 0, DataType::Null)
}

/// The first argument type from position `k` on that is not null, or null
/// when every one of them is.
pub open spec fn first_non_null(args: Seq<DataType>, k: int) -> DataType
    decreases args.len() - k,
{
    if k < 0 || k >= args.len() {
        DataType::Null
    } else if args[k] != DataType::Null {
        args[k]
    } else {
        first_non_null(args, k + 1)
    }
}

/// Result type of building a container from scalar arguments: with no
/// arguments a list of null (shape unknown), otherwise a list of the first
/// non-null argument type in declared order, or of null when all arguments
/// are null. Never a failure.
pub open spec fn wrap_in_list_result(args: Seq<DataType>) -> Option<DataType> {
    Some(DataType::List(Box::new(first_non_null(args, 0))))
}

/// What a return-type rule yields on the given argument types: the result
/// type, or `None` for a planning failure.
pub open spec fn rule_result(rule: ReturnRule, args: Seq<DataType>) -> Option<DataType> {
    match rule {
        ReturnRule::ElementText => element_text_result(args),
        ReturnRule::RangeList => range_list_result(args),
        ReturnRule::DimensionList => dimension_list_result(args),
        ReturnRule::UnsignedCount => unsigned_count_result(args),
        ReturnRule::FirstArgument => first_argument_result(args),
        ReturnRule::SecondArgument => second_argument_result(args),
        ReturnRule::ConcatWiden => concat_widen_result(args),
        ReturnRule::WrapInList => wrap_in_list_result(args),
    }
}

/// Concatenation law: of two lists of unequal nesting depth, neither with a
/// null element type, the deeper determines the result type regardless of
/// argument order.
pub proof fn lemma_concat_deeper_wins(a: DataType, b: DataType)
    requires
        a is List,
        b is List,
        !a.is_null_elem_container(),
        !b.is_null_elem_container(),
        a.ndims() > b.ndims(),
    ensures
        concat_widen_result(seq![a, b]) == Some(a),
        concat_widen_result(seq![b, a]) == Some(a),
{
    reveal_with_fuel(concat_widen_from, 4);
}

/// Concatenation law: a list whose element type is null has unknown shape
/// and never constrains the result, on either side of a list that has one.
pub proof fn lemma_concat_ignores_null_lists(a: DataType)
    requires
        a is List,
        !a.is_null_elem_container(),
    ensures
        concat_widen_result(seq![DataType::List(Box::new(DataType::Null)), a]) == Some(a),
        concat_widen_result(seq![a, DataType::List(Box::new(DataType::Null))]) == Some(a),
{
    reveal_with_fuel(concat_widen_from, 4);
}

/// Runtime concatenation rule.
#[verifier::loop_isolation(false)]
fn resolve_concat(args: &Vec<DataType>) -> (r: Option<DataType>)
    ensures
        r == concat_widen_result(args@),
{
    let mut cur = DataType::Null;
    let mut i: usize = 0;
    while i < args.len()
        invariant
            0 <= i <= args@.len(),
            concat_widen_from(args@, i as int, cur) == concat_widen_result(args@),
        decreases args@.len() - i,
    {
        match &args[i] {
            DataType::List(elem) => {
                if crate::types::type_eq(elem, &DataType::Null) {
                } else {
                    match crate::types::compare_ndims(&cur, &args[i]) {
                        core::cmp::Ordering::Greater => {},
                        core::cmp::Ordering::Equal => {
                            match crate::types::widen(&cur, &args[i]) {
                                Some(w) => {
                                    cur = w;
                                },
                                None => {
                                    return None;
                                },
                            }
                        },
                        core::cmp::Ordering::Less => {
                            cur = args[i].clone_type();
                        },
                    }
                }
            },
            _ => {
                return None;
            },
        }
        i = i + 1;
    }
    Some(cur)
}

/// Runtime wrap-in-container rule.
#[verifier::loop_isolation(false)]
fn resolve_wrap(args: &Vec<DataType>) -> (r: Option<DataType>)
    ensures
        r == wrap_in_list_result(args@),
{
    let mut i: usize = 0;
    while i < args.len()
        invariant
            0 <= i <= args@.len(),
            first_non_null(args@, i as int) == first_non_null(args@, 0),
        decreases args@.len() - i,
    {
        if !crate::types::type_eq(&args[i], &DataType::Null) {
            return Some(DataType::List(Box::new(args[i].clone_type())));
        }
        i = i + 1;
    }
    Some(DataType::List(Box::new(DataType::Null)))
}

/// Runtime range-shape test.
fn matches_range_shape(args: &Vec<DataType>) -> (r: bool)
    ensures
        r == range_shape(args@),
{
    if args.len() == 1 {
        crate::types::type_eq(&args[0], &DataType::Int64)
    } else if args.len() == 2 {
        crate::types::type_eq(&args[0], &DataType::Int64) && crate::types::type_eq(
            &args[1],
            &DataType::Int64,
        )
    } else if args.len() == 3 {
        (crate::types::type_eq(&args[0], &DataType::Int64) && crate::types::type_eq(
            &args[1],
            &DataType::Int64,
        ) && crate::types::type_eq(&args[2], &DataType::Int64)) || (crate::types::type_eq(
            &args[0],
            &DataType::Date32,
        ) && crate::types::type_eq(&args[1], &DataType::Date32) && crate::types::type_eq(
            &args[2],
            &DataType::Interval,
        ))
    } else {
        false
    }
}

/// Apply a return-type rule to the given argument types: the result type,
/// or `None` exactly where the rule signals a planning failure.
pub fn apply_rule(rule: &ReturnRule, args: &Vec<DataType>) -> (r: Option<DataType>)
    ensures
        r == rule_result(*rule, args@),
{
    match rule {
        ReturnRule::ElementText => {
            if args.len() >= 1 && args[0].container_kind() {
                Some(DataType::Utf8)
            } else {
                None
            }
        },
        ReturnRule::RangeList => {
            if matches_range_shape(args) {
                Some(DataType::List(Box::new(args[0].clone_type())))
            } else {
                None
            }
        },
        ReturnRule::DimensionList => {
            if args.len() == 1 && args[0].container_kind() {
                Some(DataType::List(Box::new(DataType::UInt64)))
            } else {
                None
            }
        },
        ReturnRule::UnsignedCount => {
            if args.len() == 1 && args[0].container_kind() {
                Some(DataType::UInt64)
            } else {
                None
            }
        },
        ReturnRule::FirstArgument => {
            if args.len() == 2 && args[0].container_kind() {
                Some(args[0].clone_type())
            } else {
                None
            }
        },
        ReturnRule::SecondArgument => {
            if args.len() == 2 && args[1].container_kind() {
                Some(args[1].clone_type())
            } else {
                None
            }
        },
        ReturnRule::ConcatWiden => resolve_concat(args),
        ReturnRule::WrapInList => resolve_wrap(args),
    }
}

} // verus!
