//! The type model: the tagged union of column element and container types,
//! with the `ndims` (nesting depth) and `widen` (common supertype) relations.

use vstd::prelude::*;

verus! {

/// A column's data type: scalar kinds plus three container kinds.
///
/// The three container kinds share one semantics — an ordered sequence of
/// elements of one element type — and differ only in internal index width or
/// fixed length. `Null` is the bottom element type: a container whose element
/// type is `Null` has unknown shape and is excluded from widening decisions.
#[derive(Debug)]
pub enum DataType {
    Null,
    Int64,
    UInt64,
    Utf8,
    Date32,
    Interval,
    List(Box<DataType>),
    LargeList(Box<DataType>),
    FixedSizeList(Box<DataType>, u32),
}

impl DataType {
    /// Whether this type is one of the three container kinds.
    pub open spec fn is_container(self) -> bool {
        match self {
            DataType::List(_) => true,
            DataType::LargeList(_) => true,
            DataType::FixedSizeList(_, _) => true,
            _ => false,
        }
    }

    /// Nesting depth: 0 for non-containers, 1 + the element's depth for any
    /// container kind.
    pub open spec fn ndims(self) -> nat
        decreases self,
    {
        match self {
            DataType::List(elem) => 1 + elem.ndims(),
            DataType::LargeList(elem) => 1 + elem.ndims(),
            DataType::FixedSizeList(elem, _) => 1 + elem.ndims(),
            _ => 0,
        }
    }

    /// Whether this type is a container whose element type is `Null`,
    /// i.e. a container of unknown shape.
    pub open spec fn is_null_elem_container(self) -> bool {
        match self {
            DataType::List(elem) => *elem == DataType::Null,
            DataType::LargeList(elem) => *elem == DataType::Null,
            DataType::FixedSizeList(elem, _) => *elem == DataType::Null,
            _ => false,
        }
    }

    /// Runtime test for `is_container`.
    pub fn container_kind(&self) -> (r: bool)
        ensures
            r == self.is_container(),
    {
        match self {
            DataType::List(_) => true,
            DataType::LargeList(_) => true,
            DataType::FixedSizeList(_, _) => true,
            _ => false,
        }
    }
}

/// Structural equality of two types.
pub fn type_eq(a: &DataType, b: &DataType) -> (r: bool)
    ensures
        r == (a == b),
    decreases a,
{
    match (a, b) {
        (DataType::Null, DataType::Null) => true,
        (DataType::Int64, DataType::Int64) => true,
        (DataType::UInt64, DataType::UInt64) => true,
        (DataType::Utf8, DataType::Utf8) => true,
        (DataType::Date32, DataType::Date32) => true,
        (DataType::Interval, DataType::Interval) => true,
        (DataType::List(ea), DataType::List(eb)) => type_eq(ea, eb),
        (DataType::LargeList(ea), DataType::LargeList(eb)) => type_eq(ea, eb),
        (DataType::FixedSizeList(ea, na), DataType::FixedSizeList(eb, nb)) => (
            na == nb && type_eq(ea, eb)
        ),
        _ => false,
    }
}

/// Compare the nesting depths of two types without computing either depth,
/// by descending both at once.
pub fn compare_ndims(a: &DataType, b: &DataType) -> (r: core::cmp::Ordering)
    ensures
        r == core::cmp::Ordering::Less <==> a.ndims() < b.ndims(),
        r == core::cmp::Ordering::Equal <==> a.ndims() == b.ndims(),
        r == core::cmp::Ordering::Greater <==> a.ndims() > b.ndims(),
    decreases a,
{
    let a_elem = match a {
        DataType::List(elem) => Some(&**elem),
        DataType::LargeList(elem) => Some(&**elem),
        DataType::FixedSizeList(elem, _) => Some(&**elem),
        _ => None,
    };
    let b_elem = match b {
        DataType::List(elem) => Some(&**elem),
        DataType::LargeList(elem) => Some(&**elem),
        DataType::FixedSizeList(elem, _) => Some(&**elem),
        _ => None,
    };
    match (a_elem, b_elem) {
        (None, None) => core::cmp::Ordering::Equal,
        (None, Some(_)) => core::cmp::Ordering::Less,
        (Some(_), None) => core::cmp::Ordering::Greater,
        (Some(ea), Some(eb)) => compare_ndims(ea, eb),
    }
}

/// The common supertype of two types of equal nesting depth: the type itself
/// when the two are equal, and no supertype otherwise.
pub open spec fn widen_spec(a: DataType, b: DataType) -> Option<DataType> {
    if a == b {
        Some(a)
    } else {
        None
    }
}

/// Runtime widening; `None` signals an unsupported combination.
pub fn widen(a: &DataType, b: &DataType) -> (r: Option<DataType>)
    ensures
        r == widen_spec(*a, *b),
{
    if type_eq(a, b) {
        Some(a.clone_type())
    } else {
        None
    }
}

impl DataType {
    /// Structural deep copy.
    pub fn clone_type(&self) -> (r: DataType)
        ensures
            r == *self,
        decreases self,
    {
        match self {
            DataType::Null => DataType::Null,
            DataType::Int64 => DataType::Int64,
            DataType::UInt64 => DataType::UInt64,
            DataType::Utf8 => DataType::Utf8,
            DataType::Date32 => DataType::Date32,
            DataType::Interval => DataType::Interval,
            DataType::List(elem) => DataType::List(Box::new(elem.clone_type())),
            DataType::LargeList(elem) => DataType::LargeList(Box::new(elem.clone_type())),
            DataType::FixedSizeList(elem, n) => DataType::FixedSizeList(
                Box::new(elem.clone_type()),
                *n,
            ),
        }
    }
}

/// Runtime nesting depth. Any type a machine can represent nests far below
/// the 64-bit bound the precondition records.
pub fn ndims_u64(t: &DataType) -> (r: u64)
    requires
        t.ndims() <= u64::MAX,
    ensures
        r == t.ndims(),
    decreases t,
{
    match t {
        DataType::List(elem) => 1 + ndims_u64(elem),
        DataType::LargeList(elem) => 1 + ndims_u64(elem),
        DataType::FixedSizeList(elem, _) => 1 + ndims_u64(elem),
        _ => 0,
    }
}

/// Nesting-depth law: wrapping any type in a container adds exactly one
/// dimension, and a non-container has depth zero.
pub proof fn lemma_ndims_container(t: DataType)
    ensures
        DataType::List(Box::new(t)).ndims() == 1 + t.ndims(),
        DataType::LargeList(Box::new(t)).ndims() == 1 + t.ndims(),
        forall|n: u32| DataType::FixedSizeList(Box::new(t), n).ndims() == 1 + t.ndims(),
        !t.is_container() ==> t.ndims() == 0,
{
}

} // verus!
