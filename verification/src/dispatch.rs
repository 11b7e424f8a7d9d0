//! The dispatcher: normalization of broadcast scalars into arrays and the
//! routing of a call to exactly one type-specialized kernel.
//!
//! The kernels themselves — array append, prepend, concatenation, range
//! generation, string joining — are external collaborators that operate on
//! materialized column data. This layer decides: it checks the runtime
//! element types, normalizes the batch, and names the one kernel that must
//! run, or reports an execution failure when no kernel matches. That runtime
//! check is necessary even after planning-time validation, because a
//! signature may admit a family of kinds while only a subset has a kernel.

use vstd::prelude::*;
use vstd::string::StringExecFns;
use crate::types::DataType;
use crate::failure::ExecutionError;

verus! {

/// The shape of one materialized column: its element type and its row count.
/// The column's data stays with the engine; the decision layer reads only
/// what routing needs.
#[derive(Debug)]
pub struct ArrayHandle {
    pub dtype: DataType,
    pub len: usize,
}

/// A value handed to the dispatcher: either a materialized array or a single
/// scalar logically broadcast to the batch's length.
#[derive(Debug)]
pub enum ColumnarValue {
    Array(ArrayHandle),
    Scalar(DataType),
}

impl ColumnarValue {
    /// The element type the value carries.
    pub open spec fn dtype_spec(self) -> DataType {
        match self {
            ColumnarValue::Array(handle) => handle.dtype,
            ColumnarValue::Scalar(dtype) => dtype,
        }
    }
}

/// Whether all materialized arrays among the values share one length, so
/// that the batch has a single well-defined row count.
pub open spec fn arrays_uniform(args: Seq<ColumnarValue>) -> bool {
    forall|i: int, j: int|
        (0 <= i < args.len() && 0 <= j < args.len() && (#[trigger] args[i]) is Array && (
        #[trigger] args[j]) is Array) ==> args[i]->Array_0.len == args[j]->Array_0.len
}

/// The batch length scalars are broadcast to: the length of the first
/// materialized array from position `k` on, or one row when every value is
/// a scalar.
pub open spec fn batch_len_from(args: Seq<ColumnarValue>, k: int) -> usize
    decreases args.len() - k,
{
    if k < 0 || k >= args.len() {
        1
    } else {
        match args[k] {
            ColumnarValue::Array(handle) => handle.len,
            ColumnarValue::Scalar(_) => batch_len_from(args, k + 1),
        }
    }
}

/// The batch length of a call's values.
pub open spec fn batch_len(args: Seq<ColumnarValue>) -> usize {
    batch_len_from(args, 0)
}

/// The text of the failure reported when two materialized arrays disagree
/// about the batch length.
pub open spec fn mixed_length_text() -> Seq<char> {
    "arguments have mixed batch lengths"@
}

/// Normalize a call's values into one batch of arrays: every scalar is
/// broadcast to the batch length. Fails exactly when two materialized arrays
/// disagree about the batch length; `function` names the caller in that
/// failure.
#[verifier::loop_isolation(false)]
pub fn normalize_values(function: &String, args: &Vec<ColumnarValue>) -> (r: Result<
    Vec<ArrayHandle>,
    ExecutionError,
>)
    ensures
        (r is Ok) == arrays_uniform(args@),
        r matches Ok(arrays) ==> {
            &&& arrays@.len() == args@.len()
            &&& forall|i: int|
                0 <= i < args@.len() ==> (#[trigger] arrays@[i]).dtype == args@[i].dtype_spec()
            &&& forall|i: int| 0 <= i < args@.len() ==> (#[trigger] arrays@[i]).len == batch_len(
                args@,
            )
        },
        r matches Err(e) ==> e.function@ == function@ && e.message@ == mixed_length_text(),
{
    let mut target: Option<usize> = None;
    let mut i: usize = 0;
    while i < args.len()
        invariant
            0 <= i <= args@.len(),
            match target {
                Some(n) => {
                    &&& exists|j: int|
                        0 <= j < i && (#[trigger] args@[j]) is Array && args@[j]->Array_0.len
                            == n
                    &&& forall|j: int|
                        (0 <= j < i && (#[trigger] args@[j]) is Array) ==> args@[j]->Array_0.len
                            == n
                    &&& n == batch_len(args@)
                },
                None => forall|j: int| 0 <= j < i ==> (#[trigger] args@[j]) is Scalar,
            },
            target is None ==> batch_len_from(args@, i as int) == batch_len(args@),
        decreases args@.len() - i,
    {
        match &args[i] {
            ColumnarValue::Array(handle) => {
                match target {
                    Some(n) => {
                        if handle.len != n {
                            return Err(
                                ExecutionError {
                                    function: function.clone(),
                                    message: String::from_str("arguments have mixed batch lengths"),
                                },
                            );
                        }
                    },
                    None => {
                        target = Some(handle.len);
                    },
                }
            },
            ColumnarValue::Scalar(_) => {},
        }
        i = i + 1;
    }
    let n: usize = match target {
        Some(n) => n,
        None => 1,
    };
    assert(n == batch_len(args@));
    let mut arrays: Vec<ArrayHandle> = Vec::new();
    let mut i: usize = 0;
    while i < args.len()
        invariant
            0 <= i <= args@.len(),
            n == batch_len(args@),
            arrays@.len() == i,
            forall|j: int|
                0 <= j < i ==> (#[trigger] arrays@[j]).dtype == args@[j].dtype_spec(),
            forall|j: int| 0 <= j < i ==> (#[trigger] arrays@[j]).len == n,
        decreases args@.len() - i,
    {
        let dtype = match &args[i] {
            ColumnarValue::Array(handle) => handle.dtype.clone_type(),
            ColumnarValue::Scalar(dtype) => dtype.clone_type(),
        };
        arrays.push(ArrayHandle { dtype, len: n });
        i = i + 1;
    }
    Ok(arrays)
}

/// The closed set of implemented kernels a call can be routed to.
#[derive(Debug, PartialEq, Eq, Structural, Clone, Copy)]
pub enum KernelId {
    /// Join a container's elements into text.
    TextJoin,
    /// Integer range, upper bound excluded.
    IntRange,
    /// Integer range, upper bound included.
    IntSeries,
    /// Date range, upper bound excluded.
    DateRange,
    /// Date range, upper bound included.
    DateSeries,
    /// Per-dimension sizes of a container.
    Dims,
    /// Total element count of a container.
    Cardinality,
    /// Nesting depth of a container.
    Ndims,
    /// Append an element at the end of a container.
    Append,
    /// Prepend an element at the front of a container.
    Prepend,
    /// Concatenate containers.
    Concat,
    /// Build a container from its arguments.
    MakeArray,
}

/// How a descriptor selects its kernel at run time.
#[derive(Debug, PartialEq, Eq, Structural, Clone, Copy)]
pub enum DispatchRule {
    /// One kernel serves every call the signature admits.
    Fixed(KernelId),
    /// Range-style generators: the first argument's runtime kind picks the
    /// integer or the date kernel; `inclusive` tells whether the upper bound
    /// belongs to the result.
    RangeByKind { inclusive: bool },
}

/// Which kernel a dispatch rule selects for the given runtime argument
/// types; `None` is an execution failure: the runtime kind, although it may
/// have passed the static signature, has no implemented kernel.
pub open spec fn route_spec(rule: DispatchRule, arg_types: Seq<DataType>) -> Option<KernelId> {
    match rule {
        DispatchRule::Fixed(kernel) => Some(kernel),
        DispatchRule::RangeByKind { inclusive } => {
            if arg_types.len() == 0 {
                None
            } else {
                match arg_types[0] {
                    DataType::Int64 => Some(
                        if inclusive {
                            KernelId::IntSeries
                        } else {
                            KernelId::IntRange
                        },
                    ),
                    DataType::Date32 => Some(
                        if inclusive {
                            KernelId::DateSeries
                        } else {
                            KernelId::DateRange
                        },
                    ),
                    _ => None,
                }
            }
        },
    }
}

/// Runtime routing over a normalized batch.
pub fn route(rule: &DispatchRule, arrays: &Vec<ArrayHandle>) -> (r: Option<KernelId>)
    ensures
        r == route_spec(*rule, arrays@.map_values(|a: ArrayHandle| a.dtype)),
{
    let ghost types = arrays@.map_values(|a: ArrayHandle| a.dtype);
    match rule {
        DispatchRule::Fixed(kernel) => Some(*kernel),
        DispatchRule::RangeByKind { inclusive } => {
            if arrays.len() == 0 {
                None
            } else {
                assert(types[0] == arrays@[0].dtype);
                match &arrays[0].dtype {
                    DataType::Int64 => Some(
                        if *inclusive {
                            KernelId::IntSeries
                        } else {
                            KernelId::IntRange
                        },
                    ),
                    DataType::Date32 => Some(
                        if *inclusive {
                            KernelId::DateSeries
                        } else {
                            KernelId::DateRange
                        },
                    ),
                    _ => None,
                }
            }
        },
    }
}

/// One routed call: the kernel that must run and the normalized batch it
/// receives.
#[derive(Debug)]
pub struct KernelCall {
    pub kernel: KernelId,
    pub args: Vec<ArrayHandle>,
}

} // verus!
